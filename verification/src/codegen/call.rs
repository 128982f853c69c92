//! Registration of a contract's entry points with the runtime.
use vstd::prelude::*;

use super::contract_def::{Argument, Entrypoint, EntrypointType};
use super::ty::{wrapped_type_text, WrappedType};

verus! {

/// Who may call an entry point: constructors only from the `constructor` group.
pub open spec fn access_text(ty: EntrypointType) -> Seq<char> {
    match ty {
        EntrypointType::Constructor => "odra::types::EntryPointAccess::Groups(vec![odra::types::Group::new(\"constructor\")])"@,
        EntrypointType::Public => "odra::types::EntryPointAccess::Public"@,
    }
}

/// The statements that push one parameter per argument of `args`.
pub open spec fn param_pushes_text(args: Seq<Argument>) -> Seq<char>
    decreases args.len(),
{
    if args.len() == 0 {
        Seq::empty()
    } else {
        param_pushes_text(args.drop_last()) + "params.push(odra::types::Parameter::new(stringify!("@
            + args.last().ident@ + "), "@ + wrapped_type_text(args.last().ty) + "));"@
    }
}

/// The expression that builds the parameter list of an entry point.
pub open spec fn entrypoint_params_text(args: Seq<Argument>) -> Seq<char> {
    if args.len() == 0 {
        "Vec::<odra::types::Parameter>::new()"@
    } else {
        "{ let mut params: Vec<odra::types::Parameter> = Vec::new(); "@ + param_pushes_text(args)
            + " params }"@
    }
}

/// The statement that registers one entry point.
pub open spec fn entry_point_text(ep: Entrypoint) -> Seq<char> {
    "entry_points.add_entry_point(odra::types::EntryPoint::new(stringify!("@ + ep.ident@ + "), "@
        + entrypoint_params_text(ep.args@) + ", "@ + wrapped_type_text(ep.ret) + ", "@
        + access_text(ep.ty) + ", odra::types::EntryPointType::Contract,));"@
}

/// The registration statements of every entry point of `eps`, in order.
pub open spec fn entry_points_text(eps: Seq<Entrypoint>) -> Seq<char>
    decreases eps.len(),
{
    if eps.len() == 0 {
        Seq::empty()
    } else {
        entry_points_text(eps.drop_last()) + entry_point_text(eps.last())
    }
}

/// The declaration of the entry point set followed by the registration of each entry point.
pub open spec fn contract_entrypoints_text(eps: Seq<Entrypoint>) -> Seq<char> {
    "let mut entry_points = odra::types::EntryPoints::new();"@ + entry_points_text(eps)
}

/// All entry points of a contract, to be registered with the runtime.
pub struct ContractEntrypoints<'a>(pub &'a Vec<Entrypoint>);

impl<'a> ContractEntrypoints<'a> {
    /// Appends the declaration of the entry point set and the registration of each entry point.
    pub fn to_tokens(&self, tokens: &mut String)
        ensures
            final(tokens)@ == old(tokens)@ + contract_entrypoints_text(self.0@),
    {
        tokens.append("let mut entry_points = odra::types::EntryPoints::new();");
        let eps = self.0;
        let n = eps.len();
        let mut i: usize = 0;
        while i < n
            invariant
                n == eps@.len(),
                i <= n,
                tokens@ == old(tokens)@ + "let mut entry_points = odra::types::EntryPoints::new();"@
                    + entry_points_text(eps@.take(i as int)),
            decreases n - i,
        {
            Self::build_entry_point(&eps[i], tokens);
            proof {
                assert(eps@.take(i + 1).drop_last() =~= eps@.take(i as int));
            }
            i = i + 1;
        }
        proof {
            assert(eps@.take(n as int) =~= eps@);
        }
    }

    /// Appends the statement that registers `entrypoint`.
    pub fn build_entry_point(entrypoint: &Entrypoint, tokens: &mut String)
        ensures
            final(tokens)@ == old(tokens)@ + entry_point_text(*entrypoint),
    {
        tokens.append("entry_points.add_entry_point(odra::types::EntryPoint::new(stringify!(");
        tokens.append(entrypoint.ident.as_str());
        tokens.append("), ");
        EntrypointParams(&entrypoint.args).to_tokens(tokens);
        tokens.append(", ");
        WrappedType(&entrypoint.ret).to_tokens(tokens);
        tokens.append(", ");
        match &entrypoint.ty {
            EntrypointType::Constructor => tokens.append(
                "odra::types::EntryPointAccess::Groups(vec![odra::types::Group::new(\"constructor\")])",
            ),
            EntrypointType::Public => tokens.append("odra::types::EntryPointAccess::Public"),
        }
        tokens.append(", odra::types::EntryPointType::Contract,));");
    }
}

/// The arguments of an entry point, to be declared as its parameters.
pub struct EntrypointParams<'a>(pub &'a Vec<Argument>);

impl<'a> EntrypointParams<'a> {
    /// Appends the expression that builds the parameter list.
    pub fn to_tokens(&self, tokens: &mut String)
        ensures
            final(tokens)@ == old(tokens)@ + entrypoint_params_text(self.0@),
    {
        let args = self.0;
        let n = args.len();
        if n == 0 {
            tokens.append("Vec::<odra::types::Parameter>::new()");
        } else {
            tokens.append("{ let mut params: Vec<odra::types::Parameter> = Vec::new(); ");
            let ghost start = tokens@;
            let mut i: usize = 0;
            while i < n
                invariant
                    n == args@.len(),
                    i <= n,
                    tokens@ == start + param_pushes_text(args@.take(i as int)),
                decreases n - i,
            {
                tokens.append("params.push(odra::types::Parameter::new(stringify!(");
                tokens.append(args[i].ident.as_str());
                tokens.append("), ");
                WrappedType(&args[i].ty).to_tokens(tokens);
                tokens.append("));");
                proof {
                    assert(args@.take(i + 1).drop_last() =~= args@.take(i as int));
                }
                i = i + 1;
            }
            proof {
                assert(args@.take(n as int) =~= args@);
            }
            tokens.append(" params }");
        }
    }
}

} // verus!
