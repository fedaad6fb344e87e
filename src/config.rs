use vstd::prelude::*;
use vstd::string::StringExecFns;

use crate::text::{decimal, decimal_text};

verus! {

/// The lowercase form of `s`, as Unicode defines it.
pub uninterp spec fn lowercase_of(s: Seq<char>) -> Seq<char>;

/// Relies on `str::to_lowercase`: the result depends on the characters of
/// `s` alone, and the empty string stays empty.
#[verifier::external_body]
fn lowercase(s: &str) -> (r: String)
    ensures
        r@ == lowercase_of(s@),
        s@.len() == 0 ==> r@.len() == 0,
{
    s.to_lowercase()
}

/// The environment the service runs in.
#[derive(Debug, Clone, Copy, PartialEq, Eq, Structural)]
pub enum Environment {
    Local,
    Production,
}

/// What follows an unsupported environment name in the error.
pub const UNSUPPORTED_ENVIRONMENT: &'static str = " is not a supported environment. Use either `local` or `production`.";

impl Environment {
    /// The environment's name, which also names its configuration file.
    pub fn as_str(&self) -> (r: &'static str)
        ensures
            r@ == match self {
                Environment::Local => "local"@,
                Environment::Production => "production"@,
            },
    {
        match self {
            Environment::Local => "local",
            Environment::Production => "production",
        }
    }

    /// The environment named `s`, in any case; otherwise an error that
    /// names the lowercased input.
    pub fn try_from(s: String) -> (r: Result<Environment, String>)
        ensures
            r == Ok::<Environment, String>(Environment::Local) <==> lowercase_of(s@) == "local"@,
            r == Ok::<Environment, String>(Environment::Production) <==> lowercase_of(s@)
                == "production"@,
            r matches Err(msg) ==> msg@ == lowercase_of(s@) + UNSUPPORTED_ENVIRONMENT@,
            r is Err <==> lowercase_of(s@) != "local"@ && lowercase_of(s@) != "production"@,
    {
        proof {
            reveal_strlit("local");
            reveal_strlit("production");
            assert("local"@.len() != "production"@.len());
        }
        let lowered = lowercase(s.as_str());
        if lowered == "local".to_string() {
            Ok(Environment::Local)
        } else if lowered == "production".to_string() {
            Ok(Environment::Production)
        } else {
            let mut msg = lowered;
            msg.append(UNSUPPORTED_ENVIRONMENT);
            Err(msg)
        }
    }
}

/// Where the service listens.
pub struct Server {
    pub api_port: u16,
    pub debug_port: u16,
    pub host: String,
}

/// The address `host:port`.
pub fn format_address(host: &str, port: u16) -> (r: String)
    ensures
        r@ == host@ + seq![':'] + decimal_text(port as int),
{
    proof {
        reveal_strlit(":");
    }
    let digits = decimal(port as i64);
    let mut address = host.to_string();
    address.append(":");
    address.append(digits.as_str());
    assert(address@ =~= host@ + seq![':'] + decimal_text(port as int));
    address
}

} // verus!
