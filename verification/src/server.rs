use vstd::prelude::*;
use crate::text::{eq_ignore_ascii_case, has_prefix, parse_u16, spec_eq_ignore_ascii_case, spec_parse_u16, strip_prefix};

verus! {

/// The port used when none is given, and after the last port.
pub const DEFAULT_PORT: u16 = 9000;

/// The host listened on when none is given.
pub open spec fn default_host() -> Seq<char> {
    "127.0.0.1"@
}

/// Where the server listens.
pub struct Args {
    pub host: String,
    pub port: u16,
}

/// Why the command line was refused.
#[derive(Clone, Copy, Debug, PartialEq, Eq, Structural)]
pub enum ArgsError {
    /// A `--port=` value that is not a port number.
    InvalidPort,
}

/// Host and port given so far while reading the arguments left to right,
/// or `None` once a `--port=` value was refused. A later `--host=` or
/// `--port=` replaces an earlier one; other arguments are ignored.
pub open spec fn args_scan(args: Seq<Seq<char>>) -> Option<(Option<Seq<char>>, Option<u16>)>
    decreases args.len(),
{
    if args.len() == 0 {
        Some((None, None))
    } else {
        match args_scan(args.drop_last()) {
            None => None,
            Some((host, port)) => {
                let a = args.last();
                if has_prefix(a, "--host="@) {
                    Some((Some(a.skip(7)), port))
                } else if has_prefix(a, "--port="@) {
                    match spec_parse_u16(a.skip(7)) {
                        Some(p) => Some((host, Some(p))),
                        None => None,
                    }
                } else {
                    Some((host, port))
                }
            },
        }
    }
}

/// The views of a list of strings.
pub open spec fn views(v: Seq<String>) -> Seq<Seq<char>> {
    v.map_values(|s: String| s@)
}

/// A command line without the program name in front.
pub open spec fn program_args(argv: Seq<Seq<char>>) -> Seq<Seq<char>> {
    if argv.len() == 0 {
        argv
    } else {
        argv.skip(1)
    }
}

impl Args {
    /// Reads `--host=` and `--port=` from the command line (the program name
    /// first, then its arguments), with `127.0.0.1` and 9000 as defaults.
    pub fn parse(argv: &Vec<String>) -> (res: Result<Args, ArgsError>)
        ensures
            match args_scan(program_args(views(argv@))) {
                None => res == Err::<Args, ArgsError>(ArgsError::InvalidPort),
                Some((host, port)) => res matches Ok(a) && a.host@ == (match host {
                    Some(h) => h,
                    None => default_host(),
                }) && a.port == (match port {
                    Some(p) => p,
                    None => DEFAULT_PORT,
                }),
            },
    {
        let mut host: Option<String> = None;
        let mut port: Option<u16> = None;
        let mut i: usize = if argv.len() > 0 { 1 } else { 0 };
        let ghost all = program_args(views(argv@));
        while i < argv.len()
            invariant
                all == program_args(views(argv@)),
                argv@.len() == 0 ==> i == 0,
                argv@.len() > 0 ==> 1 <= i <= argv@.len(),
                args_scan(all.take(if i == 0 { 0 } else { i - 1 })) == Some((
                    match host {
                        Some(h) => Some(h@),
                        None => None,
                    },
                    port,
                )),
            decreases argv@.len() - i,
        {
            let arg = &argv[i];
            let ghost prev = all.take(i - 1);
            let ghost next = all.take(i as int);
            assert(next.drop_last() =~= prev);
            assert(all[i - 1] == views(argv@)[i as int]);
            assert(next.last() == arg@);
            proof {
                reveal_strlit("--host=");
                reveal_strlit("--port=");
            }
            if let Some(value) = strip_prefix(arg.as_str(), "--host=") {
                host = Some(value.to_owned());
                assert(args_scan(next) == Some((Some(arg@.skip(7)), port)));
            } else if let Some(value) = strip_prefix(arg.as_str(), "--port=") {
                match parse_u16(value) {
                    Some(p) => {
                        port = Some(p);
                        assert(args_scan(next) == Some((
                            match host {
                                Some(h) => Some(h@),
                                None => None,
                            },
                            port,
                        )));
                    },
                    None => {
                        assert(args_scan(next) is None);
                        proof {
                            lemma_scan_refusal_sticks(all, i as int);
                        }
                        return Err(ArgsError::InvalidPort);
                    },
                }
            }
            i = i + 1;
        }
        proof {
            if argv@.len() > 0 {
                assert(all.take(i - 1) =~= all);
            } else {
                assert(all.len() == 0);
                assert(all.take(0) =~= all);
            }
        }
        Ok(
            Args {
                host: match host {
                    Some(h) => h,
                    None => String::from_str("127.0.0.1"),
                },
                port: match port {
                    Some(p) => p,
                    None => DEFAULT_PORT,
                },
            },
        )
    }
}

/// The two options are independent, and the last of each wins. After one
/// more argument:
/// - a `--host=` argument sets the host to its value and leaves the port as
///   it was;
/// - a `--port=` argument with a valid port sets the port to that value and
///   leaves the host as it was; with an invalid one, the line is refused;
/// - any other argument changes nothing;
/// - a line already refused stays refused.
pub proof fn law_options_are_independent(args: Seq<Seq<char>>, a: Seq<char>)
    ensures
        args_scan(args) is None ==> args_scan(args.push(a)) is None,
        args_scan(args) matches Some((h, p)) ==> {
            if has_prefix(a, "--host="@) {
                args_scan(args.push(a)) == Some((Some(a.subrange(7, a.len() as int)), p))
            } else if has_prefix(a, "--port="@) {
                match spec_parse_u16(a.subrange(7, a.len() as int)) {
                    Some(v) => args_scan(args.push(a)) == Some((h, Some(v))),
                    None => args_scan(args.push(a)) is None,
                }
            } else {
                args_scan(args.push(a)) == Some((h, p))
            }
        },
{
    let all = args.push(a);
    assert(all.drop_last() =~= args);
    assert(all.last() == a);
    reveal_strlit("--host=");
    reveal_strlit("--port=");
    assert(a.skip(7) =~= a.subrange(7, a.len() as int));
}

/// With no arguments the defaults stand: no host and no port given.
pub proof fn law_no_arguments_give_defaults()
    ensures
        args_scan(Seq::<Seq<char>>::empty()) == Some((None::<Seq<char>>, None::<u16>)),
{
}

/// Once a prefix of the arguments is refused, the whole list is refused.
proof fn lemma_scan_refusal_sticks(all: Seq<Seq<char>>, k: int)
    requires
        0 <= k <= all.len(),
        args_scan(all.take(k)) is None,
    ensures
        args_scan(all) is None,
    decreases all.len() - k,
{
    if k < all.len() {
        let next = all.take(k + 1);
        assert(next.drop_last() =~= all.take(k));
        lemma_scan_refusal_sticks(all, k + 1);
    } else {
        assert(all.take(k) =~= all);
    }
}

/// The port tried when the configured one is taken: the next one, or 9000
/// after the last port.
pub fn fallback_port(port: u16) -> (p: u16)
    ensures
        p == if port < u16::MAX { (port + 1) as u16 } else { DEFAULT_PORT },
{
    match port.checked_add(1) {
        Some(p) => p,
        None => DEFAULT_PORT,
    }
}

/// `localhost`, in any ASCII case.
pub open spec fn names_localhost(host: Seq<char>) -> bool {
    spec_eq_ignore_ascii_case(host, "localhost"@)
}

/// The index of the first `true` at or after `from`.
pub open spec fn first_true_from(v: Seq<bool>, from: int) -> Option<int>
    decreases v.len() - from,
{
    if from < 0 || from >= v.len() {
        None
    } else if v[from] {
        Some(from)
    } else {
        first_true_from(v, from + 1)
    }
}

/// Which of the resolved addresses to listen on, given for each whether it
/// is IPv6: none when there are none; for `localhost` the first IPv6
/// address if there is one (addresses are ordered IPv6 first, keeping their
/// order); otherwise the first address.
pub open spec fn chosen_address(host: Seq<char>, is_ipv6: Seq<bool>) -> Option<int> {
    if is_ipv6.len() == 0 {
        None
    } else if names_localhost(host) {
        match first_true_from(is_ipv6, 0) {
            Some(i) => Some(i),
            None => Some(0),
        }
    } else {
        Some(0)
    }
}

/// Picks the address to listen on among those a host name resolved to.
pub fn choose_listen_address(host: &str, is_ipv6: &Vec<bool>) -> (res: Option<usize>)
    ensures
        match chosen_address(host@, is_ipv6@) {
            Some(i) => res == Some(i as usize),
            None => res is None,
        },
{
    if is_ipv6.len() == 0 {
        return None;
    }
    if !eq_ignore_ascii_case(host, "localhost") {
        return Some(0);
    }
    let mut i: usize = 0;
    while i < is_ipv6.len()
        invariant
            i <= is_ipv6@.len(),
            is_ipv6@.len() > 0,
            names_localhost(host@),
            first_true_from(is_ipv6@, 0) == first_true_from(is_ipv6@, i as int),
        decreases is_ipv6@.len() - i,
    {
        if is_ipv6[i] {
            return Some(i);
        }
        i = i + 1;
    }
    Some(0)
}

/// Without resolved addresses there is nothing to listen on; a host other
/// than `localhost` listens on the first address resolved.
pub proof fn law_other_hosts_take_the_first_address(host: Seq<char>, is_ipv6: Seq<bool>)
    ensures
        is_ipv6.len() == 0 ==> chosen_address(host, is_ipv6) is None,
        is_ipv6.len() > 0 && !names_localhost(host) ==> chosen_address(host, is_ipv6) == Some(0int),
        is_ipv6.len() > 0 ==> (chosen_address(host, is_ipv6) matches Some(i) && 0 <= i < is_ipv6.len()),
{
    if is_ipv6.len() > 0 && names_localhost(host) {
        if first_true_from(is_ipv6, 0) is Some {
            lemma_first_true_in_range(is_ipv6, 0);
        }
    }
}

proof fn lemma_first_true_in_range(v: Seq<bool>, from: int)
    requires
        0 <= from,
    ensures
        first_true_from(v, from) matches Some(i) ==> from <= i < v.len() && v[i],
    decreases v.len() - from,
{
    if from < v.len() && !v[from] {
        lemma_first_true_in_range(v, from + 1);
    }
}

/// For `localhost`, an IPv6 address is chosen whenever one was resolved, and
/// it is the first of them; any other host gets the first address.
pub proof fn law_localhost_prefers_ipv6(host: Seq<char>, is_ipv6: Seq<bool>, j: int)
    requires
        0 <= j < is_ipv6.len(),
        is_ipv6[j],
        names_localhost(host),
    ensures
        chosen_address(host, is_ipv6) matches Some(i) && 0 <= i <= j && is_ipv6[i]
            && forall|k: int| 0 <= k < i ==> !is_ipv6[k],
{
    lemma_first_true_from(is_ipv6, 0, j);
}

proof fn lemma_first_true_from(v: Seq<bool>, from: int, j: int)
    requires
        0 <= from <= j < v.len(),
        v[j],
    ensures
        first_true_from(v, from) matches Some(i) && from <= i <= j && v[i]
            && forall|k: int| from <= k < i ==> !v[k],
    decreases j - from,
{
    if !v[from] {
        lemma_first_true_from(v, from + 1, j);
    }
}

} // verus!
