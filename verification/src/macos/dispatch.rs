use crate::macos::args::{Args, Command};
use crate::macos::error::MacOsError;
use crate::macos::input_method::{
    get_input_method, set_input_method, utf8_failure_detail, TextInputContext,
};
use vstd::prelude::*;

verus! {

/// Maps a parsed command to the input-method control calls: `get` reads the
/// selected input method and hands back the line to print; `set` switches
/// to the requested identifier and hands back nothing to print. Every
/// control error passes through unchanged; printing itself is left to the
/// caller.
pub fn dispatch(ctx: &mut TextInputContext, args: &Args) -> (r: Result<Option<String>, MacOsError>)
    ensures
        args.command is Get ==> {
            &&& *final(ctx) == *old(ctx)
            &&& old(ctx).selected_ok() ==> (r matches Ok(o) && (o matches Some(line) && line@
                == old(ctx).selected_id()))
            &&& old(ctx).selected_keyboard_input_source is None ==> (r matches Err(
                MacOsError::InputSourceUnavailable(m),
            ) && m@ == "Failed to get input method"@)
            &&& (old(ctx).selected_keyboard_input_source is Some && !old(ctx).selected_ok()) ==> (
            r matches Err(MacOsError::Utf8Error(d)) && d@ == old(ctx).selected_detail())
        },
        args.command matches Command::SetMethod { input_method } ==> {
            &&& r matches Ok(o) ==> o is None
            &&& r is Ok <==> (old(ctx).sources_ok() && old(ctx).source_ids().contains(
                input_method@,
            ) && old(ctx).selected_ok())
            &&& !(old(ctx).sources_ok() && old(ctx).source_ids().contains(input_method@) && old(
                ctx,
            ).selected_ok() && old(ctx).selected_id() != input_method@) ==> *final(ctx) == *old(
                ctx,
            )
            &&& old(ctx).keyboard_input_sources is None ==> (r matches Err(
                MacOsError::InputSourceUnavailable(m),
            ) && m@ == "Failed to get keyboard input sources"@)
            &&& (old(ctx).keyboard_input_sources is Some && !old(ctx).sources_ok()) ==> (r matches
                Err(MacOsError::Utf8Error(d)) && utf8_failure_detail(
                old(ctx).keyboard_input_sources->0@,
                d@,
            ))
            &&& (old(ctx).sources_ok() && !old(ctx).source_ids().contains(input_method@)) ==> (
            r matches Err(MacOsError::InputSourceNotFound(s)) && s@ == input_method@)
            &&& (old(ctx).sources_ok() && old(ctx).source_ids().contains(input_method@) && old(
                ctx,
            ).selected_keyboard_input_source is None) ==> (r matches Err(
                MacOsError::InputSourceUnavailable(m),
            ) && m@ == "Failed to get input method"@)
            &&& (old(ctx).sources_ok() && old(ctx).source_ids().contains(input_method@) && old(
                ctx,
            ).selected_keyboard_input_source is Some && !old(ctx).selected_ok()) ==> (r matches
                Err(MacOsError::Utf8Error(d)) && d@ == old(ctx).selected_detail())
            &&& (old(ctx).sources_ok() && old(ctx).source_ids().contains(input_method@) && old(
                ctx,
            ).selected_ok() && old(ctx).selected_id() != input_method@) ==> {
                &&& final(ctx).keyboard_input_sources == old(ctx).keyboard_input_sources
                &&& final(ctx).selected_ok()
                &&& final(ctx).selected_id() == input_method@
                &&& final(ctx).wf()
            }
        },
{
    match &args.command {
        Command::Get => {
            match get_input_method(ctx) {
                Ok(input_method) => Ok(Some(input_method)),
                Err(e) => Err(e),
            }
        },
        Command::SetMethod { input_method } => {
            match set_input_method(ctx, input_method.as_str()) {
                Ok(_) => Ok(None),
                Err(e) => Err(e),
            }
        },
    }
}

} // verus!
