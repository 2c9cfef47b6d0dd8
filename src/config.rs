use vstd::prelude::*;

verus! {

/// Settings of one server instance: where it listens, what it serves, and
/// whether it answers with permissive cross-origin headers.
#[derive(Clone, Debug)]
pub struct ServerConfig {
    /// Host address to bind to.
    pub host: String,
    /// Port to listen on.
    pub port: u16,
    /// Root directory to serve, as given by the user (not yet canonicalized).
    pub path: String,
    /// Whether permissive cross-origin headers are attached to every response.
    pub enable_cors: bool,
}

impl Default for ServerConfig {
    fn default() -> (r: Self)
        ensures
            r.host@ == "127.0.0.1"@,
            r.port == 3000,
            r.path@ == "."@,
            !r.enable_cors,
    {
        ServerConfig {
            host: String::from_str("127.0.0.1"),
            port: 3000,
            path: String::from_str("."),
            enable_cors: false,
        }
    }
}

/// The decimal digits, in order.
pub const DIGITS: &'static str = "0123456789";

/// The decimal text of `n`, without leading zeros.
pub open spec fn decimal(n: nat) -> Seq<char>
    decreases n,
{
    if n < 10 {
        DIGITS@.subrange(n as int, n as int + 1)
    } else {
        decimal(n / 10) + DIGITS@.subrange((n % 10) as int, (n % 10) as int + 1)
    }
}

/// Appends the decimal text of `n` to `out`.
fn append_decimal(out: &mut String, n: u16)
    ensures
        final(out)@ == old(out)@ + decimal(n as nat),
    decreases n,
{
    proof {
        reveal_strlit("0123456789");
    }
    if n >= 10 {
        append_decimal(out, n / 10);
    }
    let d = (n % 10) as usize;
    out.append(DIGITS.substring_char(d, d + 1));
    assert(old(out)@ + decimal(n as nat) =~= out@) by {
        if n >= 10 {
            assert(decimal(n as nat) == decimal((n / 10) as nat) + DIGITS@.subrange(
                d as int,
                d as int + 1,
            ));
        }
    };
}

impl ServerConfig {
    /// The address the server binds to: the host, a colon, and the port in
    /// decimal.
    pub fn bind_address(&self) -> (r: String)
        ensures
            r@ == self.host@ + ":"@ + decimal(self.port as nat),
    {
        let mut r = self.host.clone();
        r.append(":");
        append_decimal(&mut r, self.port);
        r
    }
}

} // verus!
