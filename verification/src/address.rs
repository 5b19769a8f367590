//! Account and contract addresses.
use vstd::prelude::*;
use vstd::string::StringSliceAdditionalSpecFns;
use vstd::utf8::encode_utf8;

verus! {

/// An address on the local network. The library copies and compares
/// addresses; it never looks inside one.
#[derive(PartialEq, Eq, Debug)]
pub struct Addr {
    pub value: String,
}

impl Addr {
    /// The address written as `value`, taken without any check.
    pub fn unchecked(value: &str) -> (res: Self)
        ensures
            res.value@ == value@,
    {
        Addr { value: value.to_owned() }
    }

    /// The bytes of the address as it is written.
    pub open spec fn spec_bytes(&self) -> Seq<u8> {
        encode_utf8(self.value@)
    }

    /// The bytes of the address as it is written.
    pub fn as_bytes(&self) -> (res: &[u8])
        ensures
            res@ == self.spec_bytes(),
    {
        self.value.as_str().as_bytes()
    }

    /// The address as text.
    pub fn as_str(&self) -> (res: &str)
        ensures
            res@ == self.value@,
    {
        self.value.as_str()
    }
}

impl Clone for Addr {
    fn clone(&self) -> (res: Self)
        ensures
            res == *self,
    {
        Addr { value: self.value.clone() }
    }
}

} // verus!
