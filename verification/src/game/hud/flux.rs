//! The flux display above the reactor.
use vstd::prelude::*;

use crate::game::phase::Phase;
use crate::text::decimal;
use crate::text::push_decimal;
use crate::ui::Anchor;
use crate::ui::Blueprint;
use crate::ui::LabelKind;
use crate::ui::Marker;
use crate::ui::NodePreset;
use crate::ui::Part;
use crate::ui::Style;
use crate::ui::ThemeColor;
use crate::ui::Val;
use crate::ui::shaped;

verus! {

pub open spec fn flux_display_blueprint(b: Blueprint) -> bool {
    &&& shaped(
        b,
        seq![
            Part::Name("FluxDisplay"),
            Part::Style(Style::Preset(NodePreset::RowCenter)),
            Part::Style(Style::Width(Val::Vw(2_250_000_000i64))),
            Part::Style(Style::Height(Val::Vw(500_000_000i64))),
            Part::Style(Style::BorderAll(Val::Vw(20_830_000i64))),
            Part::Background(ThemeColor::Monitor),
            Part::Border(ThemeColor::MonitorDimText),
            Part::RichTooltip(
                Anchor::CenterRight,
                "[b]Flux multiplier[r]\n\nChain \"reactor modules\" together to multiply their output.",
            ),
        ],
        1,
    )
    &&& shaped(
        b.children@[0],
        seq![
            Part::Marker(Marker::IsFluxLabel),
            Part::Label(LabelKind::ColoredLabel(ThemeColor::Default), ""),
            Part::NodeShake,
        ],
        0,
    )
}

pub fn flux_display() -> (b: Blueprint)
    ensures
        flux_display_blueprint(b),
{
    Blueprint {
        parts: vec![
            Part::Name("FluxDisplay"),
            Part::Style(Style::Preset(NodePreset::RowCenter)),
            Part::Style(Style::Width(Val::Vw(2_250_000_000i64))),
            Part::Style(Style::Height(Val::Vw(500_000_000i64))),
            Part::Style(Style::BorderAll(Val::Vw(20_830_000i64))),
            Part::Background(ThemeColor::Monitor),
            Part::Border(ThemeColor::MonitorDimText),
            Part::RichTooltip(
                Anchor::CenterRight,
                "[b]Flux multiplier[r]\n\nChain \"reactor modules\" together to multiply their output.",
            ),
        ],
        children: vec![
            Blueprint {
                parts: vec![
                    Part::Marker(Marker::IsFluxLabel),
                    Part::Label(LabelKind::ColoredLabel(ThemeColor::Default), ""),
                    Part::NodeShake,
                ],
                children: vec![],
            },
        ],
    }
}

pub open spec fn flux_text(flux: u64) -> Seq<char> {
    "flux "@ + decimal(flux as nat) + "x"@
}

/// The text of the flux label.
pub fn flux_label_text(flux: u64) -> (text: String)
    ensures
        text@ == flux_text(flux),
{
    let mut text = String::from_str("flux ");
    push_decimal(&mut text, flux);
    text.append("x");
    assert(text@ =~= flux_text(flux));
    text
}

/// The flux label is bright while there is flux, and dim otherwise.
pub fn flux_label_color(flux: u64) -> (c: ThemeColor)
    ensures
        c == (if flux > 0 {
            ThemeColor::MonitorText
        } else {
            ThemeColor::MonitorDimText
        }),
{
    if flux > 0 {
        ThemeColor::MonitorText
    } else {
        ThemeColor::MonitorDimText
    }
}

/// The label shakes when its text changes (but not when it is first written).
pub fn flux_label_shakes(previous: &str, flux: u64) -> (shakes: bool)
    ensures
        shakes == (previous@.len() > 0 && previous@ != flux_text(flux)),
{
    if previous.unicode_len() == 0 {
        return false;
    }
    let text = flux_label_text(flux);
    !string_eq(previous, text.as_str())
}

fn string_eq(a: &str, b: &str) -> (r: bool)
    ensures
        r == (a@ == b@),
{
    let n = a.unicode_len();
    if n != b.unicode_len() {
        return false;
    }
    let mut i: usize = 0;
    while i < n
        invariant
            n == a@.len(),
            n == b@.len(),
            i <= n,
            forall|j: int| 0 <= j < i ==> a@[j] == b@[j],
        decreases n - i,
    {
        if a.get_char(i) != b.get_char(i) {
            return false;
        }
        i = i + 1;
    }
    assert(a@ =~= b@);
    true
}

/// The border of the flux display is bright while the reactor powers up and the
/// player attacks, and dim in the other phases.
pub fn flux_display_border(phase: Phase) -> (c: ThemeColor)
    ensures
        c == (if phase == Phase::Reactor || phase == Phase::Player {
            ThemeColor::MonitorText
        } else {
            ThemeColor::MonitorDimText
        }),
{
    match phase {
        Phase::Reactor | Phase::Player => ThemeColor::MonitorText,
        _ => ThemeColor::MonitorDimText,
    }
}

} // verus!
