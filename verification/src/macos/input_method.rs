use crate::macos::error::MacOsError;
use crate::util::warning_collector::WarningCollector;
use vstd::prelude::*;
use vstd::string::StringExecFns;

verus! {

/// A native string as the OS hands it back: either it decoded to valid
/// UTF-8 text, or it did not and only the decode failure detail remains.
#[derive(Debug, PartialEq, Eq)]
pub enum OsText {
    /// The decoded text.
    Text(String),
    /// The decode failure detail for a string that was not valid UTF-8.
    NotUtf8(String),
}

impl OsText {
    /// The native string decoded to valid text.
    pub open spec fn is_text(&self) -> bool {
        self is Text
    }

    /// The decoded text, for a native string that decoded.
    pub open spec fn text(&self) -> Seq<char>
        recommends
            self.is_text(),
    {
        self->Text_0@
    }

    /// The decode failure detail, for a native string that did not decode.
    pub open spec fn detail(&self) -> Seq<char>
        recommends
            !self.is_text(),
    {
        self->NotUtf8_0@
    }
}

/// `i` is the position of the first entry of `list` that did not decode.
pub open spec fn is_first_non_text(list: Seq<OsText>, i: int) -> bool {
    &&& 0 <= i < list.len()
    &&& !list[i].is_text()
    &&& forall|j: int| 0 <= j < i ==> (#[trigger] list[j]).is_text()
}

/// `d` is the decode failure detail of the first entry of `list` that did
/// not decode. At most one `d` satisfies this, since the first such
/// position is unique.
pub open spec fn utf8_failure_detail(list: Seq<OsText>, d: Seq<char>) -> bool {
    exists|i: int| #[trigger] is_first_non_text(list, i) && d == list[i].detail()
}

/// A model of the observable state of the OS text-input subsystem: the
/// keyboard input sources it reports and the selected one. Either answer may
/// be missing (the OS declined to hand it back), and every answer is a
/// native string that may or may not have decoded.
///
/// The operations below decide everything over a value of this type. An
/// unverified shell fills it from the live subsystem and applies the switch
/// that `set_input_method` decides; a test double fills it directly.
#[derive(Debug, PartialEq, Eq)]
pub struct TextInputContext {
    /// The keyboard input sources, in the order the OS supplied them;
    /// `None` if the OS returned no list at all.
    pub keyboard_input_sources: Option<Vec<OsText>>,
    /// The selected keyboard input source; `None` if the OS reported none.
    pub selected_keyboard_input_source: Option<OsText>,
}

impl TextInputContext {
    /// The OS handed back a source list and every entry decoded.
    pub open spec fn sources_ok(&self) -> bool {
        &&& self.keyboard_input_sources is Some
        &&& forall|i: int|
            0 <= i < self.keyboard_input_sources->0@.len() ==> (#[trigger] self
                .keyboard_input_sources->0@[i]).is_text()
    }

    /// The available input method identifiers, in OS order.
    pub open spec fn source_ids(&self) -> Seq<Seq<char>>
        recommends
            self.sources_ok(),
    {
        self.keyboard_input_sources->0@.map_values(|t: OsText| t.text())
    }

    /// The OS handed back a selected source and it decoded.
    pub open spec fn selected_ok(&self) -> bool {
        self.selected_keyboard_input_source matches Some(t) && t.is_text()
    }

    /// The selected input method identifier.
    pub open spec fn selected_id(&self) -> Seq<char>
        recommends
            self.selected_ok(),
    {
        self.selected_keyboard_input_source->0.text()
    }

    /// The decode failure detail of the selected source, where it did not
    /// decode.
    pub open spec fn selected_detail(&self) -> Seq<char>
        recommends
            self.selected_keyboard_input_source is Some && !self.selected_ok(),
    {
        self.selected_keyboard_input_source->0.detail()
    }

    /// Normal OS behavior: both answers are present and decoded, and the
    /// selected identifier appears in the available list.
    pub open spec fn wf(&self) -> bool {
        &&& self.sources_ok()
        &&& self.selected_ok()
        &&& self.source_ids().contains(self.selected_id())
    }
}

/// Builds the context through which the keyboard-source operations run, from
/// what the OS handed back. Fails with `MainThreadRequired` when no
/// main-thread token was obtainable, since the text-input-context subsystem
/// mandates the OS main thread.
pub fn create_input_context(
    on_main_thread: bool,
    keyboard_input_sources: Option<Vec<OsText>>,
    selected_keyboard_input_source: Option<OsText>,
) -> (r: Result<TextInputContext, MacOsError>)
    ensures
        !on_main_thread ==> r matches Err(MacOsError::MainThreadRequired),
        on_main_thread ==> (r matches Ok(ctx) && ctx == (TextInputContext {
            keyboard_input_sources,
            selected_keyboard_input_source,
        })),
{
    if !on_main_thread {
        return Err(MacOsError::MainThreadRequired);
    }
    Ok(TextInputContext { keyboard_input_sources, selected_keyboard_input_source })
}

/// Returns the available input methods, in the order the OS supplied them;
/// nothing is sorted or deduplicated. Fails with `InputSourceUnavailable` if
/// the OS returned no list at all, and with `Utf8Error` (carrying the first
/// offending entry's detail) if any single entry was not valid UTF-8.
pub fn get_available_input_methods(ctx: &TextInputContext) -> (r: Result<Vec<String>, MacOsError>)
    ensures
        ctx.keyboard_input_sources is None ==> (r matches Err(MacOsError::InputSourceUnavailable(
            m,
        )) && m@ == "Failed to get keyboard input sources"@),
        ctx.keyboard_input_sources is Some && !ctx.sources_ok() ==> (r matches Err(
            MacOsError::Utf8Error(d),
        ) && utf8_failure_detail(ctx.keyboard_input_sources->0@, d@)),
        ctx.sources_ok() ==> (r matches Ok(v) && v.deep_view() == ctx.source_ids()),
{
    let list = match &ctx.keyboard_input_sources {
        None => {
            return Err(
                MacOsError::InputSourceUnavailable(
                    String::from_str("Failed to get keyboard input sources"),
                ),
            );
        },
        Some(list) => list,
    };
    let mut out: Vec<String> = Vec::new();
    let mut idx: usize = 0;
    while idx < list.len()
        invariant
            idx <= list.len(),
            out@.len() == idx,
            ctx.keyboard_input_sources is Some,
            list@ == ctx.keyboard_input_sources->0@,
            forall|j: int| 0 <= j < idx ==> (#[trigger] list@[j]).is_text(),
            forall|j: int| 0 <= j < idx ==> #[trigger] out@[j]@ == list@[j].text(),
        decreases list.len() - idx,
    {
        match &list[idx] {
            OsText::Text(s) => {
                out.push(s.clone());
            },
            OsText::NotUtf8(d) => {
                proof {
                    assert(is_first_non_text(ctx.keyboard_input_sources->0@, idx as int));
                }
                return Err(MacOsError::Utf8Error(d.clone()));
            },
        }
        idx += 1;
    }
    proof {
        assert(out.deep_view() =~= ctx.source_ids());
    }
    Ok(out)
}

/// True iff `input_method` appears, by exact string match, anywhere in the
/// available input methods; fails exactly as `get_available_input_methods`
/// does when that list cannot be had.
pub fn is_input_method_available(ctx: &TextInputContext, input_method: &str) -> (r: Result<
    bool,
    MacOsError,
>)
    ensures
        ctx.keyboard_input_sources is None ==> (r matches Err(MacOsError::InputSourceUnavailable(
            m,
        )) && m@ == "Failed to get keyboard input sources"@),
        ctx.keyboard_input_sources is Some && !ctx.sources_ok() ==> (r matches Err(
            MacOsError::Utf8Error(d),
        ) && utf8_failure_detail(ctx.keyboard_input_sources->0@, d@)),
        ctx.sources_ok() ==> r == Ok::<bool, MacOsError>(ctx.source_ids().contains(input_method@)),
{
    let available_input_methods = match get_available_input_methods(ctx) {
        Ok(v) => v,
        Err(e) => {
            return Err(e);
        },
    };
    let needle = input_method.to_owned();
    let mut idx: usize = 0;
    while idx < available_input_methods.len()
        invariant
            idx <= available_input_methods.len(),
            needle@ == input_method@,
            ctx.sources_ok(),
            available_input_methods.deep_view() == ctx.source_ids(),
            forall|j: int| 0 <= j < idx ==> #[trigger] ctx.source_ids()[j] != input_method@,
        decreases available_input_methods.len() - idx,
    {
        proof {
            assert(available_input_methods.deep_view()[idx as int] == available_input_methods@[
                idx as int
            ]@);
        }
        if available_input_methods[idx] == needle {
            proof {
                assert(ctx.source_ids()[idx as int] == input_method@);
            }
            return Ok(true);
        }
        idx += 1;
    }
    proof {
        assert(forall|j: int|
            0 <= j < ctx.source_ids().len() ==> #[trigger] ctx.source_ids()[j] != input_method@);
        assert(!ctx.source_ids().contains(input_method@));
    }
    Ok(false)
}

/// Returns the currently selected input method identifier. Fails with
/// `InputSourceUnavailable` if the OS reported none, and with `Utf8Error` if
/// it was not valid UTF-8.
pub fn get_input_method(ctx: &TextInputContext) -> (r: Result<String, MacOsError>)
    ensures
        ctx.selected_keyboard_input_source is None ==> (r matches Err(
            MacOsError::InputSourceUnavailable(m),
        ) && m@ == "Failed to get input method"@),
        ctx.selected_keyboard_input_source matches Some(t) && !t.is_text() ==> (r matches Err(
            MacOsError::Utf8Error(d),
        ) && d@ == ctx.selected_detail()),
        ctx.selected_ok() ==> (r matches Ok(id) && id@ == ctx.selected_id()),
{
    match &ctx.selected_keyboard_input_source {
        None => Err(MacOsError::InputSourceUnavailable(String::from_str("Failed to get input method"))),
        Some(OsText::NotUtf8(d)) => Err(MacOsError::Utf8Error(d.clone())),
        Some(OsText::Text(s)) => Ok(s.clone()),
    }
}

/// Switches the selected keyboard input source to `input_method`.
///
/// Fails with `InputSourceNotFound` if `input_method` is absent from the
/// available list (and with the availability check's own errors if that list
/// cannot be had). If `input_method` already equals the current selection,
/// succeeds without touching anything. Otherwise it selects `input_method`,
/// leaving the available list as it was.
pub fn set_input_method(ctx: &mut TextInputContext, input_method: &str) -> (r: Result<
    (),
    MacOsError,
>)
    ensures
        old(ctx).keyboard_input_sources is None ==> {
            &&& r matches Err(MacOsError::InputSourceUnavailable(m)) && m@
                == "Failed to get keyboard input sources"@
            &&& *final(ctx) == *old(ctx)
        },
        old(ctx).keyboard_input_sources is Some && !old(ctx).sources_ok() ==> {
            &&& r matches Err(MacOsError::Utf8Error(d)) && utf8_failure_detail(
                old(ctx).keyboard_input_sources->0@,
                d@,
            )
            &&& *final(ctx) == *old(ctx)
        },
        old(ctx).sources_ok() && !old(ctx).source_ids().contains(input_method@) ==> {
            &&& r matches Err(MacOsError::InputSourceNotFound(s)) && s@ == input_method@
            &&& *final(ctx) == *old(ctx)
        },
        old(ctx).sources_ok() && old(ctx).source_ids().contains(input_method@) && old(
            ctx,
        ).selected_keyboard_input_source is None ==> {
            &&& r matches Err(MacOsError::InputSourceUnavailable(m)) && m@
                == "Failed to get input method"@
            &&& *final(ctx) == *old(ctx)
        },
        old(ctx).sources_ok() && old(ctx).source_ids().contains(input_method@) && (old(
            ctx,
        ).selected_keyboard_input_source matches Some(t) && !t.is_text()) ==> {
            &&& r matches Err(MacOsError::Utf8Error(d)) && d@ == old(ctx).selected_detail()
            &&& *final(ctx) == *old(ctx)
        },
        old(ctx).sources_ok() && old(ctx).source_ids().contains(input_method@) && old(
            ctx,
        ).selected_ok() && old(ctx).selected_id() == input_method@ ==> {
            &&& r is Ok
            &&& *final(ctx) == *old(ctx)
        },
        old(ctx).sources_ok() && old(ctx).source_ids().contains(input_method@) && old(
            ctx,
        ).selected_ok() && old(ctx).selected_id() != input_method@ ==> {
            &&& r is Ok
            &&& final(ctx).keyboard_input_sources == old(ctx).keyboard_input_sources
            &&& final(ctx).source_ids() == old(ctx).source_ids()
            &&& final(ctx).selected_ok()
            &&& final(ctx).selected_id() == input_method@
            &&& final(ctx).wf()
        },
        r is Ok <==> (old(ctx).sources_ok() && old(ctx).source_ids().contains(input_method@)
            && old(ctx).selected_ok()),
{
    let available = match is_input_method_available(ctx, input_method) {
        Ok(b) => b,
        Err(e) => {
            return Err(e);
        },
    };
    if !available {
        return Err(MacOsError::InputSourceNotFound(input_method.to_owned()));
    }
    let current = match get_input_method(ctx) {
        Ok(c) => c,
        Err(e) => {
            return Err(e);
        },
    };
    if current == input_method.to_owned() {
        return Ok(());
    }
    ctx.selected_keyboard_input_source = Some(OsText::Text(input_method.to_owned()));
    Ok(())
}

/// Every identifier in the available list is itself available: for each
/// position of the list `get_available_input_methods` returns, the list
/// contains the identifier at that position, which is what
/// `is_input_method_available` reports on it.
pub proof fn lemma_available_methods_are_available(ctx: TextInputContext, i: int)
    requires
        ctx.sources_ok(),
        0 <= i < ctx.source_ids().len(),
    ensures
        ctx.source_ids().contains(ctx.source_ids()[i]),
{
    assert(ctx.source_ids()[i] == ctx.source_ids()[i]);
}

/// Under normal OS behavior the selected input method is a member of the
/// available list: querying both and checking membership reports true.
pub proof fn lemma_selected_is_available(ctx: TextInputContext)
    requires
        ctx.wf(),
    ensures
        ctx.sources_ok(),
        ctx.selected_ok(),
        ctx.source_ids().contains(ctx.selected_id()),
{
}

/// The consistency check behind the selected-source query: reads the
/// selected input method and reports whether it is available. Under normal
/// OS behavior the report is `true`.
pub fn current_input_method_is_available(ctx: &TextInputContext) -> (r: Result<bool, MacOsError>)
    ensures
        ctx.selected_keyboard_input_source is None ==> (r matches Err(
            MacOsError::InputSourceUnavailable(m),
        ) && m@ == "Failed to get input method"@),
        ctx.selected_keyboard_input_source matches Some(t) && !t.is_text() ==> (r matches Err(
            MacOsError::Utf8Error(d),
        ) && d@ == ctx.selected_detail()),
        ctx.selected_ok() && ctx.keyboard_input_sources is None ==> (r matches Err(
            MacOsError::InputSourceUnavailable(m),
        ) && m@ == "Failed to get keyboard input sources"@),
        ctx.selected_ok() && ctx.keyboard_input_sources is Some && !ctx.sources_ok() ==> (
        r matches Err(MacOsError::Utf8Error(d)) && utf8_failure_detail(
            ctx.keyboard_input_sources->0@,
            d@,
        )),
        ctx.selected_ok() && ctx.sources_ok() ==> r == Ok::<bool, MacOsError>(
            ctx.source_ids().contains(ctx.selected_id()),
        ),
        ctx.wf() ==> r == Ok::<bool, MacOsError>(true),
{
    let current_input_method = match get_input_method(ctx) {
        Ok(c) => c,
        Err(e) => {
            return Err(e);
        },
    };
    is_input_method_available(ctx, current_input_method.as_str())
}

/// The full switching sweep: remembers the selected input method, switches
/// to every available one in turn, reads each back and records a warning on
/// any mismatch instead of aborting, then restores the original selection.
/// Under the model every honored switch reads back as set, so no warning is
/// recorded; a well-formed context comes back with its original selection
/// restored exactly. Restoring fails with `InputSourceNotFound` when the
/// original selection was not in the available list.
pub fn sweep_input_methods(ctx: &mut TextInputContext, warnings: &mut WarningCollector) -> (r:
    Result<(), MacOsError>)
    ensures
        old(ctx).selected_keyboard_input_source is None ==> {
            &&& r matches Err(MacOsError::InputSourceUnavailable(m)) && m@
                == "Failed to get input method"@
            &&& *final(ctx) == *old(ctx)
        },
        old(ctx).selected_keyboard_input_source is Some && !old(ctx).selected_ok() ==> {
            &&& r matches Err(MacOsError::Utf8Error(d)) && d@ == old(ctx).selected_detail()
            &&& *final(ctx) == *old(ctx)
        },
        old(ctx).selected_ok() && old(ctx).keyboard_input_sources is None ==> {
            &&& r matches Err(MacOsError::InputSourceUnavailable(m)) && m@
                == "Failed to get keyboard input sources"@
            &&& *final(ctx) == *old(ctx)
        },
        old(ctx).selected_ok() && old(ctx).keyboard_input_sources is Some && !old(
            ctx,
        ).sources_ok() ==> {
            &&& r matches Err(MacOsError::Utf8Error(d)) && utf8_failure_detail(
                old(ctx).keyboard_input_sources->0@,
                d@,
            )
            &&& *final(ctx) == *old(ctx)
        },
        old(ctx).selected_ok() && old(ctx).sources_ok() && !old(ctx).source_ids().contains(
            old(ctx).selected_id(),
        ) ==> {
            &&& r matches Err(MacOsError::InputSourceNotFound(s)) && s@ == old(ctx).selected_id()
            &&& final(ctx).keyboard_input_sources == old(ctx).keyboard_input_sources
            &&& old(ctx).source_ids().len() == 0 ==> *final(ctx) == *old(ctx)
            &&& old(ctx).source_ids().len() > 0 ==> final(ctx).selected_ok()
                && final(ctx).selected_id() == old(ctx).source_ids().last()
        },
        old(ctx).wf() ==> {
            &&& r is Ok
            &&& final(ctx).keyboard_input_sources == old(ctx).keyboard_input_sources
            &&& final(ctx).selected_ok()
            &&& final(ctx).selected_id() == old(ctx).selected_id()
            &&& final(ctx).wf()
        },
        final(warnings).warnings() == old(warnings).warnings(),
{
    let original_input_method = match get_input_method(ctx) {
        Ok(c) => c,
        Err(e) => {
            return Err(e);
        },
    };
    let available_input_methods = match get_available_input_methods(ctx) {
        Ok(v) => v,
        Err(e) => {
            return Err(e);
        },
    };
    let mut idx: usize = 0;
    while idx < available_input_methods.len()
        invariant
            idx <= available_input_methods@.len(),
            old(ctx).sources_ok(),
            old(ctx).selected_ok(),
            original_input_method@ == old(ctx).selected_id(),
            available_input_methods.deep_view() == old(ctx).source_ids(),
            ctx.keyboard_input_sources == old(ctx).keyboard_input_sources,
            ctx.selected_ok(),
            idx == 0 ==> *ctx == *old(ctx),
            idx > 0 ==> ctx.selected_id() == old(ctx).source_ids()[idx - 1],
            warnings.warnings() == old(warnings).warnings(),
        decreases available_input_methods@.len() - idx,
    {
        let input_method = available_input_methods[idx].clone();
        proof {
            assert(available_input_methods.deep_view()[idx as int] == available_input_methods@[
                idx as int
            ]@);
            assert(ctx.source_ids().contains(input_method@));
        }
        match set_input_method(ctx, input_method.as_str()) {
            Ok(_) => {},
            Err(e) => {
                return Err(e);
            },
        }
        let readback = match get_input_method(ctx) {
            Ok(c) => c,
            Err(e) => {
                return Err(e);
            },
        };
        if !(readback == input_method) {
            warnings.add_warning(
                String::from_str("Failed to change input method: ").concat(input_method.as_str()),
            );
        }
        idx += 1;
    }
    set_input_method(ctx, original_input_method.as_str())
}

} // verus!
