//! The argument grammar: one mandatory proxy-address directive, then any
//! number of filter directives, of which the malformed ones are dropped.

use vstd::prelude::*;
use vstd::string::*;

verus! {

pub open spec fn help_flag() -> Seq<char> {
    seq!['-', '-', 'h', 'e', 'l', 'p']
}

pub open spec fn proxy_prefix() -> Seq<char> {
    seq![
        '-', '-', 'p', 'r', 'o', 'x', 'y', '-', 'a', 'd', 'd', 'r', '=',
        '1', '2', '7', '.', '7', '0', '.', '7', '4', '.',
    ]
}

pub open spec fn block_prefix() -> Seq<char> {
    seq!['-', '-', 'b', 'l', 'o', 'c', 'k', 'l', 'i', 's', 't', '=']
}

pub open spec fn white_prefix() -> Seq<char> {
    seq!['-', '-', 'w', 'h', 'i', 't', 'e', 'l', 'i', 's', 't', '=']
}

pub open spec fn starts_with(s: Seq<char>, p: Seq<char>) -> bool {
    p.len() <= s.len() && s.subrange(0, p.len() as int) == p
}

pub open spec fn is_digit(c: char) -> bool {
    '0' <= c && c <= '9'
}

/// The characters a filter token may hold: ASCII letters, digits, `.`, `-`, `_`.
pub open spec fn is_token_char(c: char) -> bool {
    ('a' <= c && c <= 'z') || ('A' <= c && c <= 'Z') || is_digit(c) || c == '.' || c == '-'
        || c == '_'
}

/// `--proxy-addr=127.70.74.` followed by one to three ASCII digits.
pub open spec fn valid_proxy_addr(s: Seq<char>) -> bool {
    &&& starts_with(s, proxy_prefix())
    &&& proxy_prefix().len() + 1 <= s.len() <= proxy_prefix().len() + 3
    &&& forall|i: int| proxy_prefix().len() <= i < s.len() ==> is_digit(#[trigger] s[i])
}

/// `--blocklist=` or `--whitelist=` followed by token characters only.
pub open spec fn valid_filter(s: Seq<char>) -> bool {
    &&& (starts_with(s, block_prefix()) || starts_with(s, white_prefix()))
    &&& forall|i: int| block_prefix().len() <= i < s.len() ==> is_token_char(#[trigger] s[i])
}

/// The filter directives of `args` that are kept, in their order.
pub open spec fn kept_filters(args: Seq<Seq<char>>) -> Seq<Seq<char>>
    decreases args.len(),
{
    if args.len() == 0 {
        Seq::empty()
    } else {
        let rest = kept_filters(args.drop_last());
        if valid_filter(args.last()) {
            rest.push(args.last())
        } else {
            rest
        }
    }
}

pub open spec fn views(v: Seq<String>) -> Seq<Seq<char>> {
    v.map_values(|s: String| s@)
}

/// Whether `p` is a prefix of `s`.
pub fn has_prefix(s: &str, p: &str) -> (r: bool)
    ensures
        r == starts_with(s@, p@),
{
    let n = s.unicode_len();
    let m = p.unicode_len();
    if m > n {
        return false;
    }
    let mut i: usize = 0;
    while i < m
        invariant
            m == p@.len(),
            n == s@.len(),
            m <= n,
            i <= m,
            forall|j: int| 0 <= j < i ==> s@[j] == p@[j],
        decreases m - i,
    {
        if s.get_char(i) != p.get_char(i) {
            assert(s@.subrange(0, m as int)[i as int] != p@[i as int]);
            return false;
        }
        i = i + 1;
    }
    assert(s@.subrange(0, m as int) =~= p@);
    true
}

/// Whether `s` is exactly `p`.
pub fn is_exactly(s: &str, p: &str) -> (r: bool)
    ensures
        r == (s@ == p@),
{
    if s.unicode_len() != p.unicode_len() {
        return false;
    }
    let r = has_prefix(s, p);
    assert(s@.subrange(0, p@.len() as int) =~= s@);
    r
}

/// Whether `arg` is the flag that asks for the usage text.
pub fn is_help(arg: &str) -> (r: bool)
    ensures
        r == (arg@ == help_flag()),
{
    proof {
        reveal_strlit("--help");
    }
    assert(("--help")@ =~= help_flag());
    is_exactly(arg, "--help")
}

/// Whether `arg` is a well-formed proxy-address directive.
pub fn is_proxy_addr(arg: &str) -> (r: bool)
    ensures
        r == valid_proxy_addr(arg@),
{
    proof {
        reveal_strlit("--proxy-addr=127.70.74.");
    }
    assert(("--proxy-addr=127.70.74.")@ =~= proxy_prefix());
    if !has_prefix(arg, "--proxy-addr=127.70.74.") {
        return false;
    }
    let n = arg.unicode_len();
    if n < 24 || n > 26 {
        return false;
    }
    let mut i: usize = 23;
    while i < n
        invariant
            n == arg@.len(),
            23 <= i <= n,
            forall|j: int| 23 <= j < i ==> is_digit(#[trigger] arg@[j]),
        decreases n - i,
    {
        let c = arg.get_char(i);
        if !('0' <= c && c <= '9') {
            return false;
        }
        i = i + 1;
    }
    true
}

/// Whether `arg` is a well-formed filter directive.
pub fn is_filter_directive(arg: &str) -> (r: bool)
    ensures
        r == valid_filter(arg@),
{
    proof {
        reveal_strlit("--blocklist=");
        reveal_strlit("--whitelist=");
    }
    assert(("--blocklist=")@ =~= block_prefix());
    assert(("--whitelist=")@ =~= white_prefix());
    if !has_prefix(arg, "--blocklist=") && !has_prefix(arg, "--whitelist=") {
        return false;
    }
    let n = arg.unicode_len();
    let mut i: usize = 12;
    while i < n
        invariant
            n == arg@.len(),
            12 <= i <= n,
            forall|j: int| 12 <= j < i ==> is_token_char(#[trigger] arg@[j]),
        decreases n - i,
    {
        let c = arg.get_char(i);
        if !(('a' <= c && c <= 'z') || ('A' <= c && c <= 'Z') || ('0' <= c && c <= '9') || c
            == '.' || c == '-' || c == '_') {
            return false;
        }
        i = i + 1;
    }
    true
}

/// Why an argument vector was refused.
#[derive(Clone, Copy, Debug, PartialEq, Eq, Structural)]
pub enum ArgError {
    /// Nothing was given, so the mandatory proxy address is missing.
    NoArguments,
    /// The first argument is neither the help flag nor a proxy-address directive.
    InvalidFirstArgument,
}

/// What an argument vector means, in terms of the characters of each argument.
pub enum Outcome {
    Help,
    Launch(Seq<char>, Seq<Seq<char>>),
    Rejected(ArgError),
}

/// The meaning of the argument vector `args` (program name excluded).
pub open spec fn parse_outcome(args: Seq<Seq<char>>) -> Outcome {
    if args.len() == 0 {
        Outcome::Rejected(ArgError::NoArguments)
    } else if args[0] == help_flag() {
        Outcome::Help
    } else if !valid_proxy_addr(args[0]) {
        Outcome::Rejected(ArgError::InvalidFirstArgument)
    } else {
        Outcome::Launch(args[0], kept_filters(args.drop_first()))
    }
}

/// A sanitized argument list for the proxy: one proxy-address directive and
/// the filter directives that passed, in their input order.
pub struct ValidatedInvocation {
    proxy_addr: String,
    filters: Vec<String>,
}

impl View for ValidatedInvocation {
    type V = (Seq<char>, Seq<Seq<char>>);

    closed spec fn view(&self) -> (Seq<char>, Seq<Seq<char>>) {
        (self.proxy_addr@, views(self.filters@))
    }
}

impl ValidatedInvocation {
    /// Every part is well-formed.
    pub open spec fn wf(&self) -> bool {
        &&& valid_proxy_addr(self@.0)
        &&& forall|i: int| 0 <= i < self@.1.len() ==> valid_filter(#[trigger] self@.1[i])
    }

    /// The proxy-address directive.
    pub fn proxy_addr(&self) -> (r: &String)
        ensures
            r@ == self@.0,
    {
        &self.proxy_addr
    }

    /// The kept filter directives, in input order.
    pub fn filters(&self) -> (r: &Vec<String>)
        ensures
            views(r@) == self@.1,
    {
        &self.filters
    }

    /// The proxy's argument vector: the address directive, then the filters.
    pub fn command_line(&self) -> (r: Vec<String>)
        ensures
            views(r@) == seq![self@.0] + self@.1,
    {
        let mut r: Vec<String> = Vec::new();
        r.push(self.proxy_addr.clone());
        let n = self.filters.len();
        let mut i: usize = 0;
        while i < n
            invariant
                n == self.filters@.len(),
                i <= n,
                views(r@) == seq![self@.0] + self@.1.subrange(0, i as int),
            decreases n - i,
        {
            let ghost before = r@;
            r.push(self.filters[i].clone());
            proof {
                assert(views(r@) =~= views(before).push(self.filters@[i as int]@));
                assert(views(r@) =~= seq![self@.0] + self@.1.subrange(0, i + 1));
            }
            i = i + 1;
        }
        proof {
            assert(self@.1.subrange(0, n as int) =~= self@.1);
        }
        r
    }
}

/// What a valid argument vector asks for.
pub enum Parsed {
    /// Print the usage text and stop.
    Help,
    /// Launch the proxy with these arguments.
    Launch(ValidatedInvocation),
}

proof fn lemma_kept_filters_valid(args: Seq<Seq<char>>)
    ensures
        forall|i: int|
            0 <= i < kept_filters(args).len() ==> valid_filter(#[trigger] kept_filters(args)[i]),
    decreases args.len(),
{
    if args.len() > 0 {
        let rest = kept_filters(args.drop_last());
        lemma_kept_filters_valid(args.drop_last());
        assert forall|i: int| 0 <= i < kept_filters(args).len() implies valid_filter(
            #[trigger] kept_filters(args)[i],
        ) by {
            if i < rest.len() {
                assert(kept_filters(args)[i] == rest[i]);
            }
        }
    }
}

/// Keeps the filter directives of `args` that are well-formed, in their order,
/// and silently drops the rest.
pub fn sanitize_filters(args: &[String]) -> (r: Vec<String>)
    ensures
        views(r@) == kept_filters(views(args@)),
{
    let mut r: Vec<String> = Vec::new();
    let n = args.len();
    let mut i: usize = 0;
    while i < n
        invariant
            n == args@.len(),
            i <= n,
            views(r@) == kept_filters(views(args@.subrange(0, i as int))),
        decreases n - i,
    {
        let ghost before = r@;
        let keep = is_filter_directive(args[i].as_str());
        proof {
            let prefix = views(args@.subrange(0, i + 1));
            assert(prefix.drop_last() =~= views(args@.subrange(0, i as int)));
            assert(prefix.last() == args@[i as int]@);
        }
        if keep {
            r.push(args[i].clone());
            proof {
                assert(views(r@) =~= views(before).push(args@[i as int]@));
            }
        }
        i = i + 1;
    }
    proof {
        assert(args@.subrange(0, n as int) =~= args@);
    }
    r
}

/// Reads the argument vector (program name excluded): the help flag, or a
/// proxy-address directive followed by filter directives, of which the
/// malformed ones are dropped without error.
pub fn parse_and_validate_args(args: &Vec<String>) -> (r: Result<Parsed, ArgError>)
    ensures
        match r {
            Ok(Parsed::Help) => parse_outcome(views(args@)) == Outcome::Help,
            Ok(Parsed::Launch(inv)) => {
                &&& parse_outcome(views(args@)) == Outcome::Launch(inv@.0, inv@.1)
                &&& inv.wf()
            },
            Err(e) => parse_outcome(views(args@)) == Outcome::Rejected(e),
        },
{
    let n = args.len();
    if n == 0 {
        return Err(ArgError::NoArguments);
    }
    if is_help(args[0].as_str()) {
        return Ok(Parsed::Help);
    }
    if !is_proxy_addr(args[0].as_str()) {
        return Err(ArgError::InvalidFirstArgument);
    }
    let rest = vstd::slice::slice_subrange(args.as_slice(), 1, n);
    let filters = sanitize_filters(rest);
    proof {
        assert(views(rest@) =~= views(args@).drop_first());
        lemma_kept_filters_valid(views(rest@));
    }
    Ok(Parsed::Launch(ValidatedInvocation { proxy_addr: args[0].clone(), filters }))
}

} // verus!
