//! The conversion driver's decisions: everything around the two codec
//! calls that is not I/O. Both filename resolutions happen before any
//! decode work, so a malformed output filename is caught early; the codec
//! outcome is then mapped to the final report or error.

use vstd::prelude::*;

use crate::error::ConversionError;
use crate::extension::Extension;
use crate::extension::name_of;
use crate::extension::resolve;
use crate::extension::resolves_to;
use crate::extension::suffix_after_last_dot;
use crate::extension::tag_of;

verus! {

/// The two required string options of a conversion run, as supplied by
/// the caller; not validated for existence at construction time.
#[derive(Debug)]
pub struct Cli {
    /// The input file to use.
    pub input: String,
    /// The output file to use.
    pub output: String,
}

/// A validated conversion: both filenames resolved to supported tags.
#[derive(Debug, PartialEq, Eq, Structural, Clone, Copy)]
pub struct ConversionPlan {
    pub input_format: Extension,
    pub output_format: Extension,
}

/// What the two codec calls came to, as the surrounding process reports
/// it: both succeeded, or the first failing call with its rendered cause.
#[derive(Debug)]
pub enum CodecOutcome {
    Succeeded,
    DecodeFailed(String),
    EncodeFailed(String),
}

/// The tag a whole path resolves to, if any.
pub open spec fn spec_tag(s: Seq<char>) -> Option<Extension> {
    match suffix_after_last_dot(s) {
        None => None,
        Some(tok) => tag_of(tok),
    }
}

/// The completion message for a successful conversion.
pub open spec fn report_of(plan: ConversionPlan) -> Seq<char> {
    "Image successfully converted from "@ + name_of(plan.input_format) + " to "@ + name_of(
        plan.output_format,
    )
}

/// Resolves both filenames, input first, before any I/O is attempted.
/// The first failing resolution is returned unchanged; when both succeed
/// the plan carries the two resolved tags.
pub fn plan_conversion(cli: &Cli) -> (r: Result<ConversionPlan, ConversionError>)
    ensures
        spec_tag(cli.input@) is Some && spec_tag(cli.output@) is Some ==> r == Ok::<
            ConversionPlan,
            ConversionError,
        >(
            (ConversionPlan {
                input_format: spec_tag(cli.input@)->0,
                output_format: spec_tag(cli.output@)->0,
            }),
        ),
        spec_tag(cli.input@) is None ==> (r matches Err(e) && resolves_to(cli.input@, Err(e))),
        spec_tag(cli.input@) is Some && spec_tag(cli.output@) is None ==> (r matches Err(e)
            && resolves_to(cli.output@, Err(e))),
{
    let input_format = match resolve(cli.input.as_str()) {
        Ok(t) => t,
        Err(e) => {
            return Err(e);
        },
    };
    let output_format = match resolve(cli.output.as_str()) {
        Ok(t) => t,
        Err(e) => {
            return Err(e);
        },
    };
    Ok(ConversionPlan { input_format, output_format })
}

/// Turns the codec outcome of a planned conversion into the final result:
/// the completion message on success, a `DecodeFailure` or `EncodeFailure`
/// wrapping the cause otherwise.
pub fn conversion_report(plan: &ConversionPlan, outcome: CodecOutcome) -> (r: Result<
    String,
    ConversionError,
>)
    ensures
        outcome is Succeeded ==> (r matches Ok(m) && m@ == report_of(*plan)),
        outcome matches CodecOutcome::DecodeFailed(d) ==> (r matches Err(e) && e matches
            ConversionError::DecodeFailure(c) && c@ == d@),
        outcome matches CodecOutcome::EncodeFailed(d) ==> (r matches Err(e) && e matches
            ConversionError::EncodeFailure(c) && c@ == d@),
{
    match outcome {
        CodecOutcome::Succeeded => {
            let mut m = String::from_str("Image successfully converted from ");
            let input_name = plan.input_format.name();
            m.append(input_name.as_str());
            m.append(" to ");
            let output_name = plan.output_format.name();
            m.append(output_name.as_str());
            Ok(m)
        },
        CodecOutcome::DecodeFailed(d) => Err(ConversionError::DecodeFailure(d)),
        CodecOutcome::EncodeFailed(d) => Err(ConversionError::EncodeFailure(d)),
    }
}

} // verus!
