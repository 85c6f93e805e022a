//! Generic database facade over structured keys and values.

use vstd::prelude::*;

use core::marker::PhantomData;

verus! {

/// Generic database, supporting structured key and value types.
///
/// A placeholder facade: byte-keyed stores compose the manifest and the
/// write-ahead index directly, and a typed layer maps its keys and values
/// down to bytes before reaching them.
pub struct GenericDb<K, V> {
    _k: PhantomData<K>,
    _v: PhantomData<V>,
}

impl<K, V> GenericDb<K, V> {
    /// A fresh typed facade.
    pub fn new() -> (r: GenericDb<K, V>)
    {
        GenericDb { _k: PhantomData, _v: PhantomData }
    }
}

} // verus!
