//! Connection options and argument-vector assembly for the external client.
//!
//! Every invocation of the external executable shares one shape: connection
//! flags for the options that are present, then machine-readable-output
//! flags, the verb, verb-specific flags, and the positional arguments. The
//! library assembles that argument vector exactly; spawning the process with
//! it happens outside the library.

use vstd::prelude::*;

pub mod delete;
pub mod files;
pub mod fstat;
pub mod ignores;
pub mod where_;

verus! {

/// Connection parameters attached to every external invocation. An absent
/// option is simply not passed, so the external tool's own defaults apply.
pub struct Options {
    pub port: Option<String>,
    pub user: Option<String>,
    pub client: Option<String>,
}

/// The two arguments a present option contributes: its flag and its value.
pub open spec fn flag_pair(flag: Seq<char>, v: Option<String>) -> Seq<Seq<char>> {
    match v {
        Some(s) => seq![flag, s@],
        None => Seq::empty(),
    }
}

/// The connection arguments an [`Options`] value contributes, in the fixed
/// order: port, then user, then client.
pub open spec fn options_args(o: &Options) -> Seq<Seq<char>> {
    flag_pair("-p"@, o.port) + flag_pair("-u"@, o.user) + flag_pair("-c"@, o.client)
}

/// Appends one flag and its value when the option is present.
fn push_flag_pair(args: &mut Vec<String>, flag: &str, v: &Option<String>)
    ensures
        final(args).deep_view() == old(args).deep_view() + flag_pair(flag@, *v),
{
    match v {
        Some(s) => {
            args.push(flag.to_owned());
            args.push(s.clone());
            proof {
                assert(args.deep_view() =~= old(args).deep_view() + seq![flag@, s@]);
            }
        },
        None => {
            proof {
                assert(args.deep_view() =~= old(args).deep_view() + Seq::<Seq<char>>::empty());
            }
        },
    }
}

/// Appends one fixed argument.
pub(crate) fn push_str(args: &mut Vec<String>, s: &str)
    ensures
        final(args).deep_view() == old(args).deep_view() + seq![s@],
{
    args.push(s.to_owned());
    proof {
        assert(args.deep_view() =~= old(args).deep_view() + seq![s@]);
    }
}

/// Appends copies of all given arguments, in order.
#[verifier::loop_isolation(false)]
pub(crate) fn push_all(args: &mut Vec<String>, items: &Vec<String>)
    ensures
        final(args).deep_view() == old(args).deep_view() + items.deep_view(),
{
    let mut i: usize = 0;
    proof {
        assert(args.deep_view() =~= old(args).deep_view() + items.deep_view().take(0));
    }
    while i < items.len()
        invariant
            i <= items.len(),
            args.deep_view() == old(args).deep_view() + items.deep_view().take(i as int),
        decreases items.len() - i,
    {
        let ghost prev = args.deep_view();
        args.push(items[i].clone());
        proof {
            assert(args.deep_view() =~= prev.push(items.deep_view()[i as int]));
        }
        i = i + 1;
        proof {
            assert(args.deep_view() =~= old(args).deep_view() + items.deep_view().take(i as int));
        }
    }
    proof {
        assert(items.deep_view().take(items.len() as int) =~= items.deep_view());
    }
}

impl Options {
    /// Appends the connection flags for every present option, in the fixed
    /// order: port, then user, then client.
    pub fn append_args(&self, args: &mut Vec<String>)
        ensures
            final(args).deep_view() == old(args).deep_view() + options_args(self),
    {
        push_flag_pair(args, "-p", &self.port);
        push_flag_pair(args, "-u", &self.user);
        push_flag_pair(args, "-c", &self.client);
        proof {
            assert(args.deep_view() =~= old(args).deep_view() + options_args(self));
        }
    }
}

} // verus!
