//! The commands of the command line, and how a model is named on it.
use crate::digest::{first_index_of, render_digest, Blob};
use crate::store::{Model, Variant};
use vstd::prelude::*;
use vstd::string::*;

verus! {

/// The parsed command line.
pub struct Cli {
    pub command: Commands,
}

/// What the command line asks for.
pub enum Commands {
    /// List the stored models, those whose name starts with `filter` if given.
    List { filter: Option<String> },
    /// Pull a model by name.
    Pull { name: String },
    /// Remove a model by name.
    Remove { name: String },
    /// Check that every stored manifest's blobs are present, and with `blobs`
    /// that each hashes to its digest.
    Verify { blobs: bool },
    /// Show information about a model.
    Info { name: String },
    /// Run a model.
    Run { name: String, debug: bool, model_path: bool },
    /// Measure a model's generation speed.
    Bench { name: String, max_tokens: Option<u64> },
    /// Compute embeddings with a model.
    Embed { name: String },
}

/// Why a model name was refused.
#[derive(Clone, Copy, Debug, PartialEq, Eq, Structural)]
pub enum NameError {
    /// The name lacks the `:` between model and tag.
    MissingTag,
    /// The model part is empty.
    InvalidModel,
    /// The tag part is empty.
    InvalidVariant,
}

/// How `<model>:<tag>` is read: model and tag around the first `:`, both
/// non-empty.
pub open spec fn name_parts(s: Seq<char>) -> Result<(Seq<char>, Seq<char>), NameError> {
    match first_index_of(s, ':') {
        None => Err(NameError::MissingTag),
        Some(i) => if i == 0 {
            Err(NameError::InvalidModel)
        } else if i + 1 == s.len() {
            Err(NameError::InvalidVariant)
        } else {
            Ok((s.take(i), s.skip(i + 1)))
        },
    }
}

/// Reads a model name of the form `<model>:<tag>`.
pub fn parse_name(name: &str) -> (r: Result<(Model, Variant), NameError>)
    ensures
        match name_parts(name@) {
            Ok(p) => r matches Ok(mv) && mv.0@ == p.0 && mv.1@ == p.1,
            Err(e) => r == Err::<(Model, Variant), NameError>(e),
        },
{
    let n = name.unicode_len();
    let mut i: usize = 0;
    let mut found = false;
    while i < n && !found
        invariant
            n == name@.len(),
            i <= n,
            found ==> i < n && name@[i as int] == ':',
            forall|j: int| 0 <= j < i ==> name@[j] != ':',
        decreases n - i + (if found { 0int } else { 1int }),
    {
        if name.get_char(i) == ':' {
            found = true;
        } else {
            i = i + 1;
        }
    }
    if !found {
        return Err(NameError::MissingTag);
    }
    assert(first_index_of(name@, ':') == Some(i as int)) by {
        let k = choose|k: int|
            0 <= k < name@.len() && name@[k] == ':' && forall|j: int| 0 <= j < k ==> name@[j] != ':';
        assert(!(k < i));
        assert(!(k > i));
    }
    let model_part = name.substring_char(0, i);
    let variant_part = name.substring_char(i + 1, n);
    assert(model_part@ =~= name@.take(i as int));
    assert(variant_part@ =~= name@.skip(i + 1));
    let model = match Model::parse(model_part) {
        Ok(m) => m,
        Err(_) => {
            return Err(NameError::InvalidModel);
        },
    };
    let variant = match Variant::parse(variant_part) {
        Ok(v) => v,
        Err(_) => {
            return Err(NameError::InvalidVariant);
        },
    };
    Ok((model, variant))
}

/// How a stored model is named in listings: `<model>:<tag>`.
pub fn listing_name(model: &Model, variant: &Variant) -> (r: String)
    ensures
        r@ == model@ + ":"@ + variant@,
{
    proof {
        reveal_strlit(":");
    }
    let mut s = String::from_str(model.as_str());
    s.append(":");
    s.append(variant.as_str());
    s
}

/// Whether a listing shows `name`: every name without a filter, else those
/// that start with the filter.
pub fn filter_accepts(name: &str, filter: &Option<String>) -> (r: bool)
    ensures
        r == match filter {
            None => true,
            Some(f) => f@.len() <= name@.len() && name@.take(f@.len() as int) == f@,
        },
{
    match filter {
        None => true,
        Some(f) => {
            let n = name.unicode_len();
            let m = f.as_str().unicode_len();
            if m > n {
                return false;
            }
            let mut i: usize = 0;
            while i < m
                invariant
                    *filter == Some(*f),
                    m == f@.len(),
                    n == name@.len(),
                    m <= n,
                    i <= m,
                    forall|j: int| 0 <= j < i ==> name@[j] == f@[j],
                decreases m - i,
            {
                if name.get_char(i) != f.as_str().get_char(i) {
                    assert(name@.take(m as int)[i as int] != f@[i as int]);
                    assert(name@.take(m as int) != f@);
                    return false;
                }
                i = i + 1;
            }
            assert(name@.take(m as int) =~= f@);
            true
        },
    }
}

/// What is wrong with a blob of a stored manifest, if anything: it is
/// missing, or, when its content was checked, it does not hash to its digest.
pub open spec fn blob_problem_text(blob: Blob, present: bool, valid: Option<bool>) -> Option<
    Seq<char>,
> {
    if !present {
        Some("missing "@ + render_digest(blob.bytes(), ':'))
    } else if valid == Some(false) {
        Some("invalid blob "@ + render_digest(blob.bytes(), ':'))
    } else {
        None
    }
}

/// Reports what is wrong with a blob: `present` says whether it is in the
/// store, `valid` whether its content hashes to its digest, when checked.
pub fn blob_problem(blob: &Blob, present: bool, valid: Option<bool>) -> (r: Option<String>)
    ensures
        match blob_problem_text(*blob, present, valid) {
            Some(t) => r matches Some(s) && s@ == t,
            None => r is None,
        },
{
    if !present {
        let mut s = String::from_str("missing ");
        s.append(blob.to_text().as_str());
        proof {
            reveal_strlit("missing ");
        }
        Some(s)
    } else if matches!(valid, Some(false)) {
        let mut s = String::from_str("invalid blob ");
        s.append(blob.to_text().as_str());
        proof {
            reveal_strlit("invalid blob ");
        }
        Some(s)
    } else {
        None
    }
}

} // verus!
