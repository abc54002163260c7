//! The configuration a resolution reads: the override paths and argument
//! list the user may have supplied, plus the raw initialization payload
//! that rides through to the launch directive untouched.

use vstd::prelude::*;
use serde_json::Value;

verus! {

/// One element of a `serverArgs` array: a string, or something malformed
/// (a non-string JSON element), which resolution drops without failing.
#[derive(Debug, Clone)]
pub enum ArgEntry {
    Text(String),
    Malformed,
}

/// The strings a `serverArgs` array contributes: its string entries, in
/// their original order; malformed entries are dropped.
pub open spec fn spec_kept_args(entries: Seq<ArgEntry>) -> Seq<Seq<char>>
    decreases entries.len(),
{
    if entries.len() == 0 {
        Seq::empty()
    } else {
        spec_kept_args(entries.drop_last()) + (match entries.last() {
            ArgEntry::Text(s) => seq![s@],
            ArgEntry::Malformed => Seq::empty(),
        })
    }
}

/// Law: one more entry changes the kept arguments by exactly its own
/// contribution at the end — a string entry appends its text, a malformed
/// entry contributes nothing. So malformed entries are only ever dropped,
/// and the kept entries stay in their original order.
pub proof fn lemma_kept_args_step(entries: Seq<ArgEntry>, e: ArgEntry)
    ensures
        spec_kept_args(entries.push(e)) == spec_kept_args(entries) + (match e {
            ArgEntry::Text(s) => seq![s@],
            ArgEntry::Malformed => Seq::<Seq<char>>::empty(),
        }),
{
    assert(entries.push(e).drop_last() =~= entries);
    assert(entries.push(e).last() == e);
}

/// Keep the string entries of a `serverArgs` array, in order. Malformed
/// entries degrade gracefully: they are skipped, never an error.
pub fn collect_args(entries: &Vec<ArgEntry>) -> (r: Vec<String>)
    ensures
        r.deep_view() == spec_kept_args(entries@),
{
    let mut out: Vec<String> = Vec::new();
    let mut i: usize = 0;
    while i < entries.len()
        invariant
            i <= entries@.len(),
            out.deep_view() == spec_kept_args(entries@.take(i as int)),
        decreases entries@.len() - i,
    {
        let ghost prev = out.deep_view();
        match &entries[i] {
            ArgEntry::Text(s) => {
                out.push(s.clone());
            },
            ArgEntry::Malformed => {},
        }
        proof {
            assert(entries@.take(i as int + 1).drop_last() =~= entries@.take(i as int));
            assert(entries@.take(i as int + 1).last() == entries@[i as int]);
            match entries@[i as int] {
                ArgEntry::Text(s) => {
                    assert(out.deep_view() =~= prev + seq![s@]);
                },
                ArgEntry::Malformed => {},
            }
        }
        i = i + 1;
    }
    proof {
        assert(entries@.take(entries@.len() as int) =~= entries@);
    }
    out
}

/// What a resolution reads from the incoming initialization options. A
/// `None` path means the field was absent or not a string; an empty string
/// is present but counts as "no override". The raw payload is kept so the
/// launch directive can pass it through unchanged.
pub struct Settings {
    /// Top-level `serverPath`.
    pub server_path: Option<String>,
    /// Namespaced `lsp.serverPath`.
    pub lsp_server_path: Option<String>,
    /// Namespaced `lsp.serverArgs`; empty when absent or not an array.
    pub lsp_server_args: Vec<ArgEntry>,
    /// The opaque initialization payload, passed through untouched.
    pub options: Option<Value>,
}

impl Settings {
    /// The explicit direct override: a present, non-empty top-level
    /// `serverPath`.
    pub open spec fn top_override(&self) -> Option<Seq<char>> {
        match self.server_path {
            Some(p) => if p@.len() > 0 {
                Some(p@)
            } else {
                None
            },
            None => None,
        }
    }

    /// The namespaced override: a present, non-empty `lsp.serverPath`.
    pub open spec fn lsp_override(&self) -> Option<Seq<char>> {
        match self.lsp_server_path {
            Some(p) => if p@.len() > 0 {
                Some(p@)
            } else {
                None
            },
            None => None,
        }
    }

    /// The override that wins and the argument list it carries: the
    /// explicit direct override (no arguments) beats the namespaced one
    /// (its kept `serverArgs`); None means resolution falls through to
    /// auto-provisioning.
    pub open spec fn override_plan(&self) -> Option<(Seq<char>, Seq<Seq<char>>)> {
        if self.top_override() is Some {
            Some((self.top_override()->0, Seq::empty()))
        } else if self.lsp_override() is Some {
            Some((self.lsp_override()->0, spec_kept_args(self.lsp_server_args@)))
        } else {
            None
        }
    }
}

/// The incoming request's shape: a language identifier and the opaque
/// initialization options the host delivers with it.
pub struct Configuration {
    pub language_id: String,
    pub options: Option<Value>,
}

} // verus!
