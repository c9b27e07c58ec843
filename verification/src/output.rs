//! Output policy: which destination the final document goes to, and the
//! document-start framing.

use vstd::prelude::*;

verus! {

/// A usage error in the requested combination of output options. Fatal:
/// reported before any write is performed.
#[derive(Clone, Copy, Debug, PartialEq, Eq, Structural)]
pub enum UsageError {
    /// An update and an explicit output path were both requested.
    UpdateConflictsWithOutput,
    /// An update was requested without a configuration file to rewrite.
    UpdateWithoutConfig,
}

/// The destination the serialized configuration goes to: a named file when
/// one was requested, the pre-existing configuration's own path in update
/// mode, and standard output otherwise. The conflicting combinations are
/// usage errors.
pub open spec fn spec_resolve_output(
    update: bool,
    output: Option<Seq<char>>,
    config: Option<Seq<char>>,
) -> Result<Option<Seq<char>>, UsageError> {
    if update && output is Some {
        Err(UsageError::UpdateConflictsWithOutput)
    } else if update && config is None {
        Err(UsageError::UpdateWithoutConfig)
    } else if update {
        Ok(Some(config->0))
    } else if output is Some {
        Ok(Some(output->0))
    } else {
        Ok(None)
    }
}

/// Decides where the serialized configuration is written: `Ok(Some(path))`
/// for a file, `Ok(None)` for standard output, and an error for the two
/// conflicting option combinations, on which the caller must write nothing.
pub fn resolve_output(update: bool, output: Option<String>, config: &Option<String>) -> (r: Result<
    Option<String>,
    UsageError,
>)
    ensures
        r is Ok <==> spec_resolve_output(update, output.deep_view(), config.deep_view()) is Ok,
        r is Ok ==> (r->Ok_0).deep_view() == spec_resolve_output(
            update,
            output.deep_view(),
            config.deep_view(),
        )->Ok_0,
        r is Err ==> r->Err_0 == spec_resolve_output(
            update,
            output.deep_view(),
            config.deep_view(),
        )->Err_0,
{
    if update {
        if output.is_some() {
            Err(UsageError::UpdateConflictsWithOutput)
        } else {
            match config {
                Some(path) => Ok(Some(path.clone())),
                None => Err(UsageError::UpdateWithoutConfig),
            }
        }
    } else {
        match output {
            Some(path) => Ok(Some(path)),
            None => Ok(None),
        }
    }
}

/// The serialized document behind the document-start marker line.
pub open spec fn spec_frame_document(body: Seq<char>) -> Seq<char> {
    seq!['-', '-', '-', '\n'] + body
}

/// Prefixes the serialized configuration with the document-start marker
/// line.
pub fn frame_document(body: &str) -> (r: String)
    ensures
        r@ == spec_frame_document(body@),
{
    let mut r = String::from_str("---\n");
    r.append(body);
    proof {
        reveal_strlit("---\n");
        assert(r@ =~= spec_frame_document(body@));
    }
    r
}

} // verus!
