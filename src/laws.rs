//! Properties of the grammar and of the privilege sequence that hold for
//! every argument vector.

use crate::args::{
    help_flag, kept_filters, parse_outcome, valid_filter, valid_proxy_addr, ArgError, Outcome,
};
use crate::launch::{plan_after_drop, Fatal, Plan};
use vstd::prelude::*;

verus! {

/// A first argument that is neither the help flag nor a proxy-address
/// directive is refused right after the drop, so no escalation is asked for.
pub proof fn lemma_bad_first_argument_aborts(args: Seq<Seq<char>>)
    requires
        args.len() > 0,
        args[0] != help_flag(),
        !valid_proxy_addr(args[0]),
    ensures
        parse_outcome(args) == Outcome::Rejected(ArgError::InvalidFirstArgument),
        plan_after_drop(true, args) == Plan::Abort(Fatal::BadArguments(ArgError::InvalidFirstArgument)),
        !(plan_after_drop(true, args) is Escalate),
{
}

/// The help flag as first argument shows the usage text whatever follows it,
/// and never asks for escalation.
pub proof fn lemma_help_ignores_rest(rest: Seq<Seq<char>>)
    ensures
        parse_outcome(seq![help_flag()] + rest) == Outcome::Help,
        plan_after_drop(true, seq![help_flag()] + rest) == Plan::ShowHelp,
{
    assert((seq![help_flag()] + rest)[0] == help_flag());
}

/// An empty argument vector is fatal and does not show the usage text.
pub proof fn lemma_no_arguments_aborts()
    ensures
        parse_outcome(Seq::empty()) == Outcome::Rejected(ArgError::NoArguments),
        plan_after_drop(true, Seq::empty()) == Plan::Abort(Fatal::BadArguments(ArgError::NoArguments)),
{
}

/// Filtering a sequence that was already filtered changes nothing.
pub proof fn lemma_kept_filters_idempotent(args: Seq<Seq<char>>)
    ensures
        kept_filters(kept_filters(args)) == kept_filters(args),
    decreases args.len(),
{
    if args.len() > 0 {
        let rest = kept_filters(args.drop_last());
        lemma_kept_filters_idempotent(args.drop_last());
        if valid_filter(args.last()) {
            let pushed = rest.push(args.last());
            assert(pushed.drop_last() =~= rest);
            assert(pushed.last() == args.last());
        }
    }
}

/// Sanitizing the kept filters again, behind a valid proxy address, yields
/// the same filters in the same order.
pub proof fn lemma_sanitize_idempotent(proxy_addr: Seq<char>, args: Seq<Seq<char>>)
    requires
        valid_proxy_addr(proxy_addr),
    ensures
        parse_outcome(seq![proxy_addr] + kept_filters(args)) == Outcome::Launch(
            proxy_addr,
            kept_filters(args),
        ),
{
    let input = seq![proxy_addr] + kept_filters(args);
    assert(input[0] == proxy_addr);
    assert(input.drop_first() =~= kept_filters(args));
    assert(proxy_addr != help_flag()) by {
        assert(proxy_addr[2] == 'p');
        assert(help_flag()[2] == 'h');
    }
    lemma_kept_filters_idempotent(args);
}

} // verus!
