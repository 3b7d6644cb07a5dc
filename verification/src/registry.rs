//! Registries: what is known under a name.

use vstd::prelude::*;
use crate::error::TxError;
use crate::table::Table;

verus! {

/// What a registry holds under a name: a value, or a record that could not
/// be read as one.
#[derive(Debug, PartialEq, Eq)]
pub enum Record<T> {
    Intact(T),
    Corrupt,
}

impl<T: View> View for Record<T> {
    type V = Record<T::V>;

    open spec fn view(&self) -> Record<T::V> {
        match self {
            Record::Intact(value) => Record::Intact(value@),
            Record::Corrupt => Record::Corrupt,
        }
    }
}

/// What a lookup of `name` gives: the value, `NotFound` where the name is
/// unknown, `CorruptRecord` where its record cannot be read.
pub open spec fn resolve<T>(records: Map<Seq<char>, Record<T>>, name: Seq<char>) -> Result<
    T,
    TxError,
> {
    if !records.contains_key(name) {
        Err(TxError::NotFound)
    } else {
        match records[name] {
            Record::Intact(value) => Ok(value),
            Record::Corrupt => Err(TxError::CorruptRecord),
        }
    }
}

/// Values under names.
pub struct Registry<T: View> {
    records: Table<String, Record<T>>,
}

impl<T: View> View for Registry<T> {
    type V = Map<Seq<char>, Record<T::V>>;

    closed spec fn view(&self) -> Map<Seq<char>, Record<T::V>> {
        self.records@
    }
}

impl<T: View> Registry<T> {
    /// A registry that knows no name.
    pub fn new() -> (registry: Self)
        ensures
            registry@ == Map::<Seq<char>, Record<T::V>>::empty(),
    {
        Registry { records: Table::new() }
    }

    /// Puts `record` under `name`, in place of what was there.
    pub fn put(&mut self, name: String, record: Record<T>)
        ensures
            final(self)@ == old(self)@.insert(name@, record@),
    {
        self.records.put(name, record);
    }

    /// The value under `name`.
    pub fn get(&self, name: &String) -> (r: Result<&T, TxError>)
        ensures
            match r {
                Ok(value) => resolve(self@, name@) == Ok::<T::V, TxError>(value@),
                Err(e) => resolve(self@, name@) == Err::<T::V, TxError>(e),
            },
    {
        match self.records.get(name) {
            None => Err(TxError::NotFound),
            Some(Record::Corrupt) => Err(TxError::CorruptRecord),
            Some(Record::Intact(value)) => Ok(value),
        }
    }
}

} // verus!
