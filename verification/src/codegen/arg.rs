//! Reading the arguments of an entry point from the runtime.
use vstd::prelude::*;

use super::contract_def::Argument;

verus! {

/// The statement that binds one named runtime argument to a local of the same name.
pub open spec fn named_arg_text(ident: Seq<char>) -> Seq<char> {
    "let "@ + ident
        + " = casper_backend::backend::casper_contract::contract_api::runtime::get_named_arg(stringify!("@
        + ident + "));"@
}

/// The statements that bind every argument of `args`, in order.
pub open spec fn casper_args_text(args: Seq<Argument>) -> Seq<char>
    decreases args.len(),
{
    if args.len() == 0 {
        Seq::empty()
    } else {
        casper_args_text(args.drop_last()) + named_arg_text(args.last().ident@)
    }
}

/// The argument names of `args`, separated by commas, as in a call.
pub open spec fn fn_args_text(args: Seq<Argument>) -> Seq<char>
    decreases args.len(),
{
    if args.len() == 0 {
        Seq::empty()
    } else if args.len() == 1 {
        args[0].ident@
    } else {
        fn_args_text(args.drop_last()) + ", "@ + args.last().ident@
    }
}

/// The arguments of an entry point, to be bound from the runtime.
pub struct CasperArgs<'a>(pub &'a Vec<Argument>);

impl<'a> CasperArgs<'a> {
    /// Appends one binding statement per argument to `tokens`.
    pub fn to_tokens(&self, tokens: &mut String)
        ensures
            final(tokens)@ == old(tokens)@ + casper_args_text(self.0@),
    {
        let args = self.0;
        let n = args.len();
        let mut i: usize = 0;
        while i < n
            invariant
                n == args@.len(),
                i <= n,
                tokens@ == old(tokens)@ + casper_args_text(args@.take(i as int)),
            decreases n - i,
        {
            let ident = args[i].ident.as_str();
            tokens.append("let ");
            tokens.append(ident);
            tokens.append(
                " = casper_backend::backend::casper_contract::contract_api::runtime::get_named_arg(stringify!(",
            );
            tokens.append(ident);
            tokens.append("));");
            proof {
                assert(args@.take(i + 1).drop_last() =~= args@.take(i as int));
            }
            i = i + 1;
        }
        proof {
            assert(args@.take(n as int) =~= args@);
        }
    }
}

/// Appends the argument names of `args`, separated by commas, to `tokens`.
pub fn append_fn_args(args: &Vec<Argument>, tokens: &mut String)
    ensures
        final(tokens)@ == old(tokens)@ + fn_args_text(args@),
{
    let n = args.len();
    let mut i: usize = 0;
    while i < n
        invariant
            n == args@.len(),
            i <= n,
            tokens@ == old(tokens)@ + fn_args_text(args@.take(i as int)),
        decreases n - i,
    {
        if i > 0 {
            tokens.append(", ");
        }
        tokens.append(args[i].ident.as_str());
        proof {
            assert(args@.take(i + 1).drop_last() =~= args@.take(i as int));
            if i == 0 {
                assert(args@.take(1)[0] == args@[0]);
            }
        }
        i = i + 1;
    }
    proof {
        assert(args@.take(n as int) =~= args@);
    }
}

} // verus!
