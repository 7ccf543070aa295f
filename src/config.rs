use vstd::prelude::*;

verus! {

/// The address listened on when none is given.
pub open spec fn default_address() -> Seq<char> {
    "0.0.0.0:3000"@
}

/// The body of a failure reply when no message is given.
pub open spec fn default_error_msg() -> Seq<char> {
    "NOT FOUND"@
}

/// The server's configuration, fixed at startup and read by every request.
pub struct Args {
    /// Path of the file that is served.
    pub object: String,
    /// Name under which the file is offered for download.
    pub filename: String,
    /// Socket address to bind to, as `host:port`.
    pub address: String,
    /// Body of the reply when the file cannot be read.
    pub error_msg: String,
}

/// Builds the configuration from the values given at startup, with the
/// defaults for the address and the error message where they are absent.
pub fn get_args(
    object: String,
    filename: String,
    address: Option<String>,
    error_msg: Option<String>,
) -> (r: Args)
    ensures
        r.object@ == object@,
        r.filename@ == filename@,
        r.address@ == match address {
            Some(a) => a@,
            None => default_address(),
        },
        r.error_msg@ == match error_msg {
            Some(m) => m@,
            None => default_error_msg(),
        },
{
    let address = match address {
        Some(a) => a,
        None => String::from_str("0.0.0.0:3000"),
    };
    let error_msg = match error_msg {
        Some(m) => m,
        None => String::from_str("NOT FOUND"),
    };
    Args { object, filename, address, error_msg }
}

} // verus!
