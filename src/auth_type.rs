//! The kind of credential a wrap was created with. It is descriptive only and
//! does not change how the credential is checked.
use vstd::prelude::*;
use vstd::string::*;

verus! {

#[derive(Debug, Clone, Copy, PartialEq, Eq, Structural)]
pub enum WrapAuthType {
    /// A free-text password.
    Text,
    /// A four-digit numeric PIN.
    FourDigit,
}

impl WrapAuthType {
    pub open spec fn spec_id(self) -> u32 {
        match self {
            WrapAuthType::Text => 1,
            WrapAuthType::FourDigit => 2,
        }
    }

    /// The kind's number on the wire: 1 for text, 2 for a four-digit PIN.
    pub fn id(&self) -> (r: u32)
        ensures
            r == self.spec_id(),
    {
        match self {
            WrapAuthType::Text => 1,
            WrapAuthType::FourDigit => 2,
        }
    }

    pub open spec fn spec_name(self) -> Seq<char> {
        match self {
            WrapAuthType::Text => "Text"@,
            WrapAuthType::FourDigit => "FourDigit"@,
        }
    }

    /// The kind's stored name: `Text` or `FourDigit`.
    pub fn name(&self) -> (r: String)
        ensures
            r@ == self.spec_name(),
    {
        match self {
            WrapAuthType::Text => "Text".to_owned(),
            WrapAuthType::FourDigit => "FourDigit".to_owned(),
        }
    }

    /// The kind with the given stored name. Any other name is refused rather
    /// than read as free text.
    pub fn from_name(name: &str) -> (r: Option<WrapAuthType>)
        ensures
            r is Some <==> (name@ == "Text"@ || name@ == "FourDigit"@),
            r matches Some(t) ==> t.spec_name() == name@,
    {
        let given = name.to_owned();
        if given == "Text".to_owned() {
            Some(WrapAuthType::Text)
        } else if given == "FourDigit".to_owned() {
            Some(WrapAuthType::FourDigit)
        } else {
            None
        }
    }

    /// The kind with the given number; any number but 1 and 2 is refused.
    pub fn from_id(type_id: u32) -> (r: Option<WrapAuthType>)
        ensures
            r is Some <==> (type_id == 1 || type_id == 2),
            r matches Some(t) ==> t.spec_id() == type_id,
    {
        if type_id == 1 {
            Some(WrapAuthType::Text)
        } else if type_id == 2 {
            Some(WrapAuthType::FourDigit)
        } else {
            None
        }
    }
}

} // verus!
