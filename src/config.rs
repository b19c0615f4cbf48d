//! The command line: where to listen and which backend to relay to.
use vstd::prelude::*;

verus! {

/// Why the command line was refused.
#[derive(Clone, Copy, Debug, PartialEq, Eq, Structural)]
pub enum ArgError {
    /// `-l` came last, without an address.
    MissingListen,
    /// `-d` came last, without an address.
    MissingBackend,
    /// An argument other than `-l` or `-d`.
    Usage,
}

impl ArgError {
    /// A line that tells the user what went wrong.
    pub fn message(&self) -> (r: &'static str)
        ensures
            *self == ArgError::MissingListen ==> r@ == "missing argument for -l"@,
            *self == ArgError::MissingBackend ==> r@ == "missing argument for -d"@,
            *self == ArgError::Usage ==> r@ == "tcpproxy [-l <listen>] [-d <backend>]"@,
    {
        match self {
            ArgError::MissingListen => "missing argument for -l",
            ArgError::MissingBackend => "missing argument for -d",
            ArgError::Usage => "tcpproxy [-l <listen>] [-d <backend>]",
        }
    }
}

/// The addresses the proxy works with, as `host:port` text.
pub struct Config {
    pub listen: String,
    pub dst: String,
}

/// The text of each argument.
pub open spec fn texts(args: Seq<String>) -> Seq<Seq<char>> {
    args.map_values(|s: String| s@)
}

/// The listen and backend addresses that `args` give, starting from `listen`
/// and `dst`: `-l` and `-d` each take the next argument, a later one
/// overriding an earlier; anything else is refused.
pub open spec fn parse_spec(args: Seq<Seq<char>>, listen: Seq<char>, dst: Seq<char>) -> Result<(Seq<char>, Seq<char>), ArgError>
    decreases args.len(),
{
    if args.len() == 0 {
        Ok((listen, dst))
    } else if args[0] == "-l"@ {
        if args.len() < 2 {
            Err(ArgError::MissingListen)
        } else {
            parse_spec(args.subrange(2, args.len() as int), args[1], dst)
        }
    } else if args[0] == "-d"@ {
        if args.len() < 2 {
            Err(ArgError::MissingBackend)
        } else {
            parse_spec(args.subrange(2, args.len() as int), listen, args[1])
        }
    } else {
        Err(ArgError::Usage)
    }
}

/// Reads the command-line arguments (the program's name left out). The
/// proxy listens on `:8080` and relays to `127.0.0.1:9090` unless `-l` or
/// `-d` say otherwise.
pub fn parse_args(args: &Vec<String>) -> (r: Result<Config, ArgError>)
    ensures
        match parse_spec(texts(args@), ":8080"@, "127.0.0.1:9090"@) {
            Ok((listen, dst)) => r matches Ok(c) && c.listen@ == listen && c.dst@ == dst,
            Err(e) => r matches Err(f) && f == e,
        },
{
    let opt_l = "-l".to_owned();
    let opt_d = "-d".to_owned();
    let mut listen = ":8080".to_owned();
    let mut dst = "127.0.0.1:9090".to_owned();
    let ghost all = texts(args@);
    let mut i: usize = 0;
    assert(all.subrange(0, all.len() as int) =~= all);
    while i < args.len()
        invariant
            i <= args@.len(),
            all == texts(args@),
            opt_l@ == "-l"@,
            opt_d@ == "-d"@,
            parse_spec(all, ":8080"@, "127.0.0.1:9090"@) == parse_spec(
                all.subrange(i as int, all.len() as int),
                listen@,
                dst@,
            ),
        decreases args@.len() - i,
    {
        let ghost rest = all.subrange(i as int, all.len() as int);
        assert(rest[0] == args@[i as int]@);
        let is_l = args[i] == opt_l;
        let is_d = args[i] == opt_d;
        if is_l || is_d {
            if i + 1 >= args.len() {
                return if is_l {
                    Err(ArgError::MissingListen)
                } else {
                    Err(ArgError::MissingBackend)
                };
            }
            assert(rest[1] == args@[i + 1]@);
            assert(rest.subrange(2, rest.len() as int) =~= all.subrange(i + 2, all.len() as int));
            if is_l {
                listen = args[i + 1].clone();
            } else {
                dst = args[i + 1].clone();
            }
            i = i + 2;
        } else {
            return Err(ArgError::Usage);
        }
    }
    Ok(Config { listen, dst })
}

/// How an address was split: the host, if one is given, and the service.
pub struct HostPort {
    pub host: Option<Vec<char>>,
    pub service: Vec<char>,
}

/// Splits `host:port` text at its first colon. An empty host means any
/// (for listening) or the local one; text without a colon names no
/// service and is refused.
pub fn split_address(addr: &Vec<char>) -> (r: Option<HostPort>)
    ensures
        r is None <==> !addr@.contains(':'),
        r matches Some(hp) ==> exists|i: int|
            0 <= i < addr@.len() && addr@[i] == ':' && (forall|j: int| 0 <= j < i ==> addr@[j] != ':') && (
            match hp.host {
                Some(h) => i > 0 && h@ == addr@.take(i),
                None => i == 0,
            }) && hp.service@ == addr@.skip(i + 1),
{
    let mut i: usize = 0;
    while i < addr.len()
        invariant
            i <= addr@.len(),
            forall|j: int| 0 <= j < i ==> addr@[j] != ':',
        decreases addr@.len() - i,
    {
        if addr[i] == ':' {
            let mut host: Vec<char> = Vec::new();
            let mut k: usize = 0;
            while k < i
                invariant
                    k <= i < addr@.len(),
                    host@ == addr@.take(k as int),
                decreases i - k,
            {
                host.push(addr[k]);
                k = k + 1;
                assert(host@ =~= addr@.take(k as int));
            }
            let mut service: Vec<char> = Vec::new();
            let mut k: usize = i + 1;
            while k < addr.len()
                invariant
                    i < k <= addr@.len(),
                    service@ == addr@.subrange(i + 1, k as int),
                decreases addr@.len() - k,
            {
                service.push(addr[k]);
                k = k + 1;
                assert(service@ =~= addr@.subrange(i + 1, k as int));
            }
            assert(service@ =~= addr@.skip(i + 1));
            let host = if i == 0 { None } else { Some(host) };
            return Some(HostPort { host, service });
        }
        i = i + 1;
    }
    assert(!addr@.contains(':'));
    None
}

} // verus!
