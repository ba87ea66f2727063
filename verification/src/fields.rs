//! Reading the fields of a message map.
use vstd::prelude::*;
use vstd::string::StringExecFns;
use crate::convert::FromValue;
use crate::error::{Error, ErrorView, result_view};
use crate::value::{SpecValue, Value, spec_get};

verus! {

/// The model of what [`get`] returns: the value under `key`, read as `T`; a
/// missing key, or a value that does not read as `T`, is an error naming the
/// key.
pub open spec fn spec_field<T: FromValue>(data: SpecValue, key: Seq<char>) -> Result<T::V, ErrorView> {
    match spec_get(data, key) {
        None => Err(ErrorView::MissingField(key)),
        Some(v) => match T::spec_from_value(v) {
            Some(t) => Ok(t),
            None => Err(ErrorView::InvalidField(key, "Invalid field type"@)),
        },
    }
}

/// Reads the field `key` of the map `data` as a `T`.
pub fn get<T: FromValue>(data: &Value, key: &'static str) -> (r: Result<T, Error>)
    ensures
        result_view(r) == spec_field::<T>(data@, key@),
{
    match data.get(key) {
        None => Err(Error::MissingField(key)),
        Some(value) => match T::from_value(value) {
            Some(t) => Ok(t),
            None => Err(Error::InvalidField(key, String::from_str("Invalid field type"))),
        },
    }
}

/// Reading a field: a missing key is a `MissingField` error naming it; a
/// present value is what it reads as `T`, or an `InvalidField` error naming
/// the key when it does not read as one.
pub proof fn law_field_reads_key<T: FromValue>(data: SpecValue, key: Seq<char>)
    ensures
        spec_get(data, key) is None ==> spec_field::<T>(data, key) == Err::<T::V, ErrorView>(
            ErrorView::MissingField(key),
        ),
        spec_get(data, key) matches Some(v) ==> spec_field::<T>(data, key) == match T::spec_from_value(v) {
            Some(t) => Ok::<T::V, ErrorView>(t),
            None => Err(ErrorView::InvalidField(key, "Invalid field type"@)),
        },
{
}

} // verus!
