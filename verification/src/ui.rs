//! Blueprints: what each spawned entity is made of.
//!
//! A blueprint lists the parts of one entity (its name, image, layout, tooltip,
//! markers, body and sound) and the blueprints of its children, in spawn order. Lengths are kept in
//! hundred-millionths of a unit, so `Vw(125_000_000)` is 1.25% of the viewport width.
use vstd::prelude::*;

use crate::animation::oscillate::Oscillate;
use crate::assets::ImageKey;
use crate::assets::SoundKey;
use crate::audio::AudioChannel;
use crate::audio::MusicAudio;
use crate::audio::Pitch;
use crate::audio::PlaybackMode;
use crate::audio::SfxAudio;
use crate::audio::UiAudio;
use crate::combat::faction::Faction;
use crate::combat::health::Health;
use crate::combat::health::HealthBarFill;
use crate::game::GameLayer;
use crate::game::combat::health::IsHealthBar;
use crate::game::hud::helm::HandIndex;
use crate::game::hud::reactor::ReactorIndex;
use crate::game::ship::IsEnemyShip;
use crate::game::ship::IsPlayerShip;
use crate::game::ship::IsWeapon;
use crate::hud::Hud;
use crate::hud::helm::phase_display::PhaseDisplay;
use crate::hud::reactor::ReactorGrid;

verus! {

/// A length.
#[derive(PartialEq, Eq, Structural, Clone, Copy, Debug)]
pub enum Val {
    Zero,
    /// Hundred-millionths of a percent of the viewport width.
    Vw(i64),
    /// Hundred-millionths of a logical pixel.
    Px(i64),
}

/// The base layouts nodes start from.
#[derive(PartialEq, Eq, Structural, Clone, Copy, Debug)]
pub enum NodePreset {
    Default,
    Row,
    RowCenter,
    RowMid,
    Column,
    ColumnCenter,
    ColumnMid,
}

/// One property of a node's layout.
#[derive(PartialEq, Eq, Structural, Clone, Copy, Debug)]
pub enum Style {
    Preset(NodePreset),
    /// Children laid out in reverse order.
    Reverse,
    /// Grows to fill the space left.
    Grow,
    /// Absolutely positioned.
    Abs,
    /// Centers its children.
    Center,
    /// Aligns its children to the top center.
    TopCenter,
    FullWidth,
    FullHeight,
    FullSize,
    Width(Val),
    Height(Val),
    /// Width over height.
    AspectRatio(u32, u32),
    PaddingAll(Val),
    PaddingTop(Val),
    PaddingBottom(Val),
    PaddingLeft(Val),
    PaddingVertical(Val),
    BorderAll(Val),
    RowGap(Val),
    ColumnGap(Val),
    Left(Val),
    Top(Val),
    Bottom(Val),
    Right(Val),
    /// A grid of the given number of equal columns.
    GridColumns(u32),
    /// Laid out as a grid.
    Grid,
    MarginTop(Val),
    MarginBottom(Val),
    /// Four grid columns with the given flexible widths.
    FlexColumns(u32, u32, u32, u32),
}

/// Where a tooltip is attached.
#[derive(PartialEq, Eq, Structural, Clone, Copy, Debug)]
pub enum Anchor {
    TopCenter,
    BottomCenter,
    BottomLeft,
    CenterRight,
}

/// Colors of the UI theme.
#[derive(PartialEq, Eq, Structural, Clone, Copy, Debug)]
pub enum ThemeColor {
    Default,
    BodyText,
    IconText,
    Monitor,
    MonitorText,
    MonitorDimText,
}

/// Text label widgets.
#[derive(PartialEq, Eq, Structural, Clone, Copy, Debug)]
pub enum LabelKind {
    Label,
    ColoredLabel(ThemeColor),
    SmallColoredLabel(ThemeColor),
    TinyLabel,
    SmallLabel,
}

/// How grid cells align along their row.
#[derive(PartialEq, Eq, Structural, Clone, Copy, Debug)]
pub enum JustifySelf {
    Start,
    End,
}

/// What clicking an entity does.
#[derive(PartialEq, Eq, Structural, Clone, Copy, Debug)]
pub enum ClickAction {
    OpenHelpMenu,
    OpenPauseMenu,
    EndTurn,
    ToggleReactorOverlay,
}

/// Marker components. The library's public marker types are carried as values;
/// the others are named by their variant.
#[derive(PartialEq, Eq, Structural, Clone, Copy, Debug)]
pub enum Marker {
    IsHealthBar(IsHealthBar),
    HealthBarFill(HealthBarFill),
    HealthBarLabel,
    IsPhaseDisplay,
    IsHand,
    IsStorage,
    IsStorageLabel,
    IsFluxLabel,
    IsModuleGrid,
    ModuleSlotGlow,
    PhaseDisplay(PhaseDisplay),
    HandDisplay,
    StorageDisplay,
    StorageLabel,
    ReactorGrid(ReactorGrid),
    Hud(Hud),
    IsPlayerShip(IsPlayerShip),
    IsEnemyShip(IsEnemyShip),
    IsWeapon(IsWeapon),
    MusicAudio(MusicAudio),
    SfxAudio(SfxAudio),
    UiAudio(UiAudio),
    /// The column that shows toasts.
    Toaster,
    HealPopup,
}

/// An observer attached to an entity when it spawns.
#[derive(PartialEq, Eq, Structural, Clone, Copy, Debug)]
pub enum Observer {
    /// The player's ship dying loses the level.
    LoseLevel,
    /// The enemy's ship dying wins the level.
    WinLevel,
    /// The enemy's ship shakes when damaged.
    ApplyShake,
    /// The enemy escaping through the sensor ends the level.
    WinLevelOnEnemyEscape,
}

/// A shake read from the HUD configuration when the entity spawns.
#[derive(PartialEq, Eq, Structural, Clone, Copy, Debug)]
pub enum ConfiguredShake {
    HudShake,
    HudShakeRotation,
}

/// One part of an entity.
#[derive(Clone, PartialEq, Debug)]
pub enum Part {
    Name(&'static str),
    Image(ImageKey),
    /// An image node with no image yet.
    EmptyImage,
    Style(Style),
    Tooltip(Anchor, &'static str),
    /// A tooltip whose text uses the rich-text markup.
    RichTooltip(Anchor, &'static str),
    Label(LabelKind, &'static str),
    Background(ThemeColor),
    Border(ThemeColor),
    /// A shake with no amplitude until something shakes it.
    NodeShake,
    Configured(ConfiguredShake),
    /// An offset of zero that interactions move.
    NodeOffset,
    /// Vertical offsets when hovered and when pressed.
    InteractionOffsets(Val, Val),
    /// Vertical offsets when the parent is hovered and when it is pressed.
    ParentInteractionOffsets(Val, Val),
    Button,
    /// Ignored by pointer picking.
    Unpickable,
    InteractionSfx,
    InteractionGlassSfx,
    InteractionDisabled(bool),
    PreviousInteraction,
    BoxShadow,
    OnClick(ClickAction),
    Marker(Marker),
    ZIndex(i32),
    /// The glow over a module: its image and its opacity as a fraction.
    Glow(ImageKey, u64, u64),
    /// A position in the world, in hundred-millionths of a unit.
    Translation(i64, i64, i64),
    /// A scale, in hundred-millionths.
    Scale(i64, i64, i64),
    /// Visible when its parent is.
    InheritedVisibility,
    /// World-space text with the given font size in hundred-millionths of a
    /// point, colored by the theme.
    WorldText(i64, ThemeColor),
    /// A plain sprite.
    Sprite,
    /// A tooltip whose rich text is made when the entity spawns.
    DynamicRichTooltip(Anchor, String),
    /// A shake whose trauma grows with the given flux.
    FluxShake(u64),
    /// The reactor slot the entity shows.
    ReactorIndex(ReactorIndex),
    /// The hand position the entity shows.
    HandIndex(HandIndex),
    /// Plays the hover sound when the pointer moves over it.
    PlaysHoverSfx,
    /// A sprite showing the image.
    SpriteImage(ImageKey),
    Faction(Faction),
    Health(Health),
    /// A kinematic rigid body.
    KinematicBody,
    /// The largest speed of the body, in hundred-millionths of a unit per second.
    MaxLinearSpeed(i64),
    /// A rectangle collider of the given width and height.
    RectangleCollider(i64, i64),
    /// A collider in the given layer that collides with every layer.
    CollisionLayer(GameLayer),
    /// A rotation by the fraction of a turn.
    TurnRotation(u64, u64),
    Observes(Observer),
    /// An offset of zero that animations move.
    Offset,
    /// A shake with no magnitude until something shakes it.
    Shake,
    Oscillate(Oscillate),
    /// Despawned when the level is left.
    DespawnOnExitLevel,
    /// A sprite of one color: the color's opacity as a fraction, then the size.
    BlackSprite(u64, u64, i64, i64),
    /// A text label whose rich text is made when the entity spawns.
    DynamicLabel(LabelKind, String),
    /// A sensor that reports collisions without responding to them.
    Sensor,
    /// A collider in the first layer that collides with the second.
    CollisionLayers(GameLayer, GameLayer),
    /// The collider reports when collisions start.
    CollisionEvents,
    /// Grid cells of even columns align the first way, of odd columns the second.
    GridAlignColumns(JustifySelf, JustifySelf),
    /// Plays the sound on a volume channel.
    Audio(SoundKey, PlaybackMode, AudioChannel, Pitch),
    /// World-space text in the popup font, size and color of the health configuration.
    PopupText(&'static str),
    /// A span after its parent's text, in the bold popup font, size and color of
    /// the health configuration.
    PopupBoldSpan(String),
    /// Dies after the popup fade delay of the health configuration, then fades
    /// out over the popup fade duration.
    PopupLifetime,
    /// Moves at the popup velocity of the health configuration.
    PopupVelocity,
}

/// An entity to spawn: its parts and its children.
#[derive(PartialEq, Debug)]
pub struct Blueprint {
    pub parts: Vec<Part>,
    pub children: Vec<Blueprint>,
}

/// An entity to spawn: a blueprint, with parts added to its root.
#[derive(PartialEq, Debug)]
pub struct Spawn {
    pub blueprint: Blueprint,
    pub extra: Vec<Part>,
}

/// The blueprint has exactly these parts and this many children.
pub open spec fn shaped(b: Blueprint, parts: Seq<Part>, children: nat) -> bool {
    b.parts@ == parts && b.children@.len() == children
}

} // verus!
