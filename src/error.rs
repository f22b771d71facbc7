use vstd::prelude::*;
use vstd::string::StringExecFns;

verus! {

/// Error code reported by the device-identity (ADI) layer.
#[derive(Debug, Clone, Copy, PartialEq, Eq, Structural)]
pub struct ClearAdiError(pub i32);

/// An input of the handshake was empty or malformed.
pub const ADI_INVALID_ARGUMENT: i32 = -45001;

/// The authority's answer does not fit the session's exchange.
pub const ADI_PROTOCOL_MISMATCH: i32 = -45002;

pub open spec fn digit_char(d: int) -> char {
    if d == 0 {
        '0'
    } else if d == 1 {
        '1'
    } else if d == 2 {
        '2'
    } else if d == 3 {
        '3'
    } else if d == 4 {
        '4'
    } else if d == 5 {
        '5'
    } else if d == 6 {
        '6'
    } else if d == 7 {
        '7'
    } else if d == 8 {
        '8'
    } else {
        '9'
    }
}

/// Decimal digits of a natural number, most significant first.
pub open spec fn decimal(n: nat) -> Seq<char>
    decreases n,
{
    if n < 10 {
        seq![digit_char(n as int)]
    } else {
        decimal(n / 10).push(digit_char((n % 10) as int))
    }
}

/// Decimal text of an integer, with a leading `-` when it is negative.
pub open spec fn signed_decimal(n: int) -> Seq<char> {
    if n < 0 {
        seq!['-'] + decimal((-n) as nat)
    } else {
        decimal(n as nat)
    }
}

fn digit_str(d: u64) -> (r: &'static str)
    requires
        d < 10,
    ensures
        r@ == seq![digit_char(d as int)],
{
    match d {
        0 => {
            proof {
                reveal_strlit("0");
            }
            "0"
        },
        1 => {
            proof {
                reveal_strlit("1");
            }
            "1"
        },
        2 => {
            proof {
                reveal_strlit("2");
            }
            "2"
        },
        3 => {
            proof {
                reveal_strlit("3");
            }
            "3"
        },
        4 => {
            proof {
                reveal_strlit("4");
            }
            "4"
        },
        5 => {
            proof {
                reveal_strlit("5");
            }
            "5"
        },
        6 => {
            proof {
                reveal_strlit("6");
            }
            "6"
        },
        7 => {
            proof {
                reveal_strlit("7");
            }
            "7"
        },
        8 => {
            proof {
                reveal_strlit("8");
            }
            "8"
        },
        _ => {
            proof {
                reveal_strlit("9");
            }
            "9"
        },
    }
}

fn push_decimal(s: &mut String, n: u64)
    ensures
        final(s)@ == old(s)@ + decimal(n as nat),
    decreases n,
{
    if n >= 10 {
        push_decimal(s, n / 10);
    }
    s.append(digit_str(n % 10));
    assert(final(s)@ =~= old(s)@ + decimal(n as nat));
}

impl ClearAdiError {
    /// The error code as decimal text.
    pub fn to_decimal_string(&self) -> (r: String)
        ensures
            r@ == signed_decimal(self.0 as int),
    {
        let mut s = String::new();
        let n: i64 = self.0 as i64;
        if n < 0 {
            proof {
                reveal_strlit("-");
            }
            s.append("-");
            push_decimal(&mut s, (-n) as u64);
        } else {
            push_decimal(&mut s, n as u64);
        }
        assert(s@ =~= signed_decimal(self.0 as int));
        s
    }

    pub fn code(&self) -> (r: i32)
        ensures
            r == self.0,
    {
        self.0
    }
}

/// The closed set of failures surfaced by the library.
#[derive(Debug, Clone, PartialEq, Eq)]
pub enum AnisetteError {
    UnsupportedDevice,
    InvalidArgument(String),
    AnisetteNotProvisioned,
    PlistError(String),
    ReqwestError(String),
    WsError(String),
    SerdeError(String),
    IOError(String),
    ADIError(i32),
    InvalidLibraryFormat,
    Misc,
    MissingLibraries,
    ClearADIError(ClearAdiError),
    Anyhow(String),
}

impl AnisetteError {
    /// Wraps an error of the device-identity layer.
    pub fn from_clear_adi(e: ClearAdiError) -> (r: AnisetteError)
        ensures
            r == AnisetteError::ClearADIError(e),
    {
        AnisetteError::ClearADIError(e)
    }

    pub fn is_unsupported_device(&self) -> (r: bool)
        ensures
            r == (*self is UnsupportedDevice),
    {
        match self {
            AnisetteError::UnsupportedDevice => true,
            _ => false,
        }
    }
}

} // verus!
