//! Statistics shown at the end of a run.
use vstd::prelude::*;

use crate::text::decimal;
use crate::text::decimal_string;
use crate::ui::Blueprint;
use crate::ui::JustifySelf;
use crate::ui::LabelKind;
use crate::ui::NodePreset;
use crate::ui::Part;
use crate::ui::Style;
use crate::ui::Val;

verus! {

/// The counters of a run that are whole numbers.
pub struct Stats {
    pub missiles_fired: usize,
    pub lasers_fired: usize,
    pub fireballs_unleashed: usize,
    pub total_repaired: u64,
    pub highest_flux: u64,
    pub longest_chain: u64,
    pub damage_given: u64,
    pub damage_taken: u64,
    pub highest_damage: u64,
    /// Rounds played in the current level.
    pub num_rounds_buffer: u64,
}

impl Stats {
    pub fn new() -> (s: Self)
        ensures
            s == (Stats {
                missiles_fired: 0,
                lasers_fired: 0,
                fireballs_unleashed: 0,
                total_repaired: 0,
                highest_flux: 0,
                longest_chain: 0,
                damage_given: 0,
                damage_taken: 0,
                highest_damage: 0,
                num_rounds_buffer: 0,
            }),
    {
        Stats {
            missiles_fired: 0,
            lasers_fired: 0,
            fireballs_unleashed: 0,
            total_repaired: 0,
            highest_flux: 0,
            longest_chain: 0,
                damage_given: 0,
                damage_taken: 0,
                highest_damage: 0,
            num_rounds_buffer: 0,
        }
    }

    /// Records the flux reached by the reactor: the highest flux is kept.
    pub fn record_flux(&mut self, flux: u64)
        ensures
            final(self).highest_flux == (if old(self).highest_flux < flux {
                flux
            } else {
                old(self).highest_flux
            }),
            *final(self) == (Stats { highest_flux: final(self).highest_flux, ..*old(self) }),
    {
        if self.highest_flux < flux {
            self.highest_flux = flux;
        }
    }
}

impl Default for Stats {
    fn default() -> (s: Self)
        ensures
            s == Stats::spec_new(),
    {
        Stats::new()
    }
}

impl Stats {
    pub open spec fn spec_new() -> Stats {
        Stats {
            missiles_fired: 0,
            lasers_fired: 0,
            fireballs_unleashed: 0,
            total_repaired: 0,
            highest_flux: 0,
            longest_chain: 0,
                damage_given: 0,
                damage_taken: 0,
                highest_damage: 0,
            num_rounds_buffer: 0,
        }
    }
}

/// A new round of the level begins when the player's attack starts.
pub fn increment_level_rounds(stats: &mut Stats)
    ensures
        final(stats).num_rounds_buffer == (if old(stats).num_rounds_buffer == u64::MAX {
            u64::MAX
        } else {
            (old(stats).num_rounds_buffer + 1) as u64
        }),
        *final(stats) == (Stats { num_rounds_buffer: final(stats).num_rounds_buffer, ..*old(stats) }),
{
    stats.num_rounds_buffer = stats.num_rounds_buffer.saturating_add(1);
}

/// Two cells of the grid: a bold caption and its value.
pub open spec fn stat_row(caption: Blueprint, value: Blueprint, text: &'static str, v: Seq<char>) -> bool {
    &&& caption.parts@ == seq![Part::Label(LabelKind::SmallLabel, text)]
    &&& caption.children@.len() == 0
    &&& value.parts@.len() == 1
    &&& value.parts@[0] matches Part::DynamicLabel(k, s) && k == LabelKind::SmallLabel && s@ == v
    &&& value.children@.len() == 0
}

/// The grid of statistics: two columns of captions and values, starting with the
/// levels completed.
pub open spec fn stats_grid_blueprint(b: Blueprint, stats: Stats, level: Seq<char>) -> bool {
    let c = b.children@;
    &&& b.parts@ == seq![
        Part::Name("Grid"),
        Part::Style(Style::Preset(NodePreset::Default)),
        Part::Style(Style::Grid),
        Part::Style(Style::MarginTop(Val::Vw(200_000_000i64))),
        Part::Style(Style::MarginBottom(Val::Vw(520_000_000i64))),
        Part::Style(Style::RowGap(Val::Vw(140_000_000i64))),
        Part::Style(Style::ColumnGap(Val::Vw(600_000_000i64))),
        Part::Style(Style::FlexColumns(6, 1, 6, 1)),
        Part::GridAlignColumns(JustifySelf::End, JustifySelf::Start),
    ]
    &&& c.len() == 16
    &&& stat_row(c[0], c[1], "[b]Levels Completed:", level)
    &&& stat_row(c[2], c[3], "[b]Missiles Fired:", decimal(stats.missiles_fired as nat))
    &&& stat_row(c[4], c[5], "[b]Lasers Fired:", decimal(stats.lasers_fired as nat))
    &&& stat_row(c[6], c[7], "[b]Fireballs Unleashed:", decimal(stats.fireballs_unleashed as nat))
    &&& stat_row(c[8], c[9], "[b]Total Repaired:", decimal(stats.total_repaired as nat))
    &&& stat_row(c[10], c[11], "[b]Damage Given:", decimal(stats.damage_given as nat))
    &&& stat_row(c[12], c[13], "[b]Damage Taken:", decimal(stats.damage_taken as nat))
    &&& stat_row(c[14], c[15], "[b]Highest Damage:", decimal(stats.highest_damage as nat))
}

fn caption(text: &'static str) -> (b: Blueprint)
    ensures
        b.parts@ == seq![Part::Label(LabelKind::SmallLabel, text)],
        b.children@.len() == 0,
{
    Blueprint { parts: vec![Part::Label(LabelKind::SmallLabel, text)], children: vec![] }
}

fn value(text: String) -> (b: Blueprint)
    ensures
        b.parts@.len() == 1,
        b.parts@[0] matches Part::DynamicLabel(k, s) && k == LabelKind::SmallLabel && s@ == text@,
        b.children@.len() == 0,
{
    Blueprint { parts: vec![Part::DynamicLabel(LabelKind::SmallLabel, text)], children: vec![] }
}

pub fn stats_grid(stats: &Stats, level: String) -> (b: Blueprint)
    ensures
        stats_grid_blueprint(b, *stats, level@),
{
    let parts = vec![
        Part::Name("Grid"),
        Part::Style(Style::Preset(NodePreset::Default)),
        Part::Style(Style::Grid),
        Part::Style(Style::MarginTop(Val::Vw(200_000_000i64))),
        Part::Style(Style::MarginBottom(Val::Vw(520_000_000i64))),
        Part::Style(Style::RowGap(Val::Vw(140_000_000i64))),
        Part::Style(Style::ColumnGap(Val::Vw(600_000_000i64))),
        Part::Style(Style::FlexColumns(6, 1, 6, 1)),
        Part::GridAlignColumns(JustifySelf::End, JustifySelf::Start),
    ];
    let children = vec![
        caption("[b]Levels Completed:"),
        value(level),
        caption("[b]Missiles Fired:"),
        value(decimal_string(stats.missiles_fired as u64)),
        caption("[b]Lasers Fired:"),
        value(decimal_string(stats.lasers_fired as u64)),
        caption("[b]Fireballs Unleashed:"),
        value(decimal_string(stats.fireballs_unleashed as u64)),
        caption("[b]Total Repaired:"),
        value(decimal_string(stats.total_repaired)),
        caption("[b]Damage Given:"),
        value(decimal_string(stats.damage_given)),
        caption("[b]Damage Taken:"),
        value(decimal_string(stats.damage_taken)),
        caption("[b]Highest Damage:"),
        value(decimal_string(stats.highest_damage)),
    ];
    let b = Blueprint { parts, children };
    proof {
        assert(b.parts@ =~= seq![
            Part::Name("Grid"),
            Part::Style(Style::Preset(NodePreset::Default)),
            Part::Style(Style::Grid),
            Part::Style(Style::MarginTop(Val::Vw(200_000_000i64))),
            Part::Style(Style::MarginBottom(Val::Vw(520_000_000i64))),
            Part::Style(Style::RowGap(Val::Vw(140_000_000i64))),
            Part::Style(Style::ColumnGap(Val::Vw(600_000_000i64))),
            Part::Style(Style::FlexColumns(6, 1, 6, 1)),
            Part::GridAlignColumns(JustifySelf::End, JustifySelf::Start),
        ]);
    }
    b
}

} // verus!
