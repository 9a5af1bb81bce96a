//! The intention catalogue: every gitmoji the classifier recognises, its
//! pictographic glyph and its textual shortcode, the severity bucket each
//! one belongs to, and the fixed-priority scan that classifies a commit
//! message by the first catalogue symbol it contains.
use vstd::prelude::*;

use crate::strutil::contains_seq;
use crate::strutil::str_contains;

verus! {

/// A commit intention, named after the gitmoji that stands for it.
/// The declaration order is the catalogue order: the severity groups
/// follow one another (major, then minor, then patch, then other), and
/// classification scans the catalogue in exactly this order.
#[derive(Clone, Copy, Debug, PartialEq, Eq, Structural, Hash)]
pub enum Gitmoji {
    Boom,
    Sparkles,
    ChildrenCrossing,
    Lipstick,
    Iphone,
    Egg,
    ChartWithUpwardsTrend,
    HeavyPlusSign,
    HeavyMinusSign,
    PassportControl,
    Art,
    Ambulance,
    Lock,
    Bug,
    Zap,
    GoalNet,
    Alien,
    Wheelchair,
    SpeechBalloon,
    Mag,
    Fire,
    WhiteCheckMark,
    ClosedLockWithKey,
    RotatingLight,
    GreenHeart,
    ArrowDown,
    ArrowUp,
    Pushpin,
    ConstructionWorker,
    Recycle,
    Wrench,
    Hammer,
    GlobeWithMeridians,
    Package,
    Truck,
    Bento,
    CardFileBox,
    LoudSound,
    Mute,
    BuildingConstruction,
    CameraFlash,
    Label,
    Seedling,
    TriangularFlagOnPost,
    Dizzy,
    AdhesiveBandage,
    MonocleFace,
    Necktie,
    Stethoscope,
    Technologist,
    Thread,
    SafetyVest,
    Memo,
    Rocket,
    Tada,
    Bookmark,
    Construction,
    Pencil2,
    Poop,
    Rewind,
    TwistedRightwardsArrows,
    PageFacingUp,
    Bulb,
    Beers,
    BustInSilhouette,
    ClownFace,
    SeeNoEvil,
    Alembic,
    Wastebasket,
    Coffin,
    TestTube,
    Bricks,
    MoneyWithWings,
}

/// The severity bucket an intention belongs to.
#[derive(Clone, Copy, Debug, PartialEq, Eq, Structural)]
pub enum Severity {
    Major,
    Minor,
    Patch,
    Other,
}

/// The glyph of a gitmoji, as a character sequence.
pub open spec fn utf_of(g: Gitmoji) -> Seq<char> {
    match g {
        Gitmoji::Boom => "💥"@,
        Gitmoji::Sparkles => "✨"@,
        Gitmoji::ChildrenCrossing => "🚸"@,
        Gitmoji::Lipstick => "💄"@,
        Gitmoji::Iphone => "📱"@,
        Gitmoji::Egg => "🥚"@,
        Gitmoji::ChartWithUpwardsTrend => "📈"@,
        Gitmoji::HeavyPlusSign => "➕"@,
        Gitmoji::HeavyMinusSign => "➖"@,
        Gitmoji::PassportControl => "🛂"@,
        Gitmoji::Art => "🎨"@,
        Gitmoji::Ambulance => "🚑️"@,
        Gitmoji::Lock => "🔒️"@,
        Gitmoji::Bug => "🐛"@,
        Gitmoji::Zap => "⚡️"@,
        Gitmoji::GoalNet => "🥅"@,
        Gitmoji::Alien => "👽️"@,
        Gitmoji::Wheelchair => "♿️"@,
        Gitmoji::SpeechBalloon => "💬"@,
        Gitmoji::Mag => "🔍️"@,
        Gitmoji::Fire => "🔥"@,
        Gitmoji::WhiteCheckMark => "✅"@,
        Gitmoji::ClosedLockWithKey => "🔐"@,
        Gitmoji::RotatingLight => "🚨"@,
        Gitmoji::GreenHeart => "💚"@,
        Gitmoji::ArrowDown => "⬇️"@,
        Gitmoji::ArrowUp => "⬆️"@,
        Gitmoji::Pushpin => "📌"@,
        Gitmoji::ConstructionWorker => "👷"@,
        Gitmoji::Recycle => "♻️"@,
        Gitmoji::Wrench => "🔧"@,
        Gitmoji::Hammer => "🔨"@,
        Gitmoji::GlobeWithMeridians => "🌐"@,
        Gitmoji::Package => "📦️"@,
        Gitmoji::Truck => "🚚"@,
        Gitmoji::Bento => "🍱"@,
        Gitmoji::CardFileBox => "🗃️"@,
        Gitmoji::LoudSound => "🔊"@,
        Gitmoji::Mute => "🔇"@,
        Gitmoji::BuildingConstruction => "🏗️"@,
        Gitmoji::CameraFlash => "📸"@,
        Gitmoji::Label => "🏷️"@,
        Gitmoji::Seedling => "🌱"@,
        Gitmoji::TriangularFlagOnPost => "🚩"@,
        Gitmoji::Dizzy => "💫"@,
        Gitmoji::AdhesiveBandage => "🩹"@,
        Gitmoji::MonocleFace => "🧐"@,
        Gitmoji::Necktie => "👔"@,
        Gitmoji::Stethoscope => "🩺"@,
        Gitmoji::Technologist => "🧑"@,
        Gitmoji::Thread => "🧵"@,
        Gitmoji::SafetyVest => "🦺"@,
        Gitmoji::Memo => "📝"@,
        Gitmoji::Rocket => "🚀"@,
        Gitmoji::Tada => "🎉"@,
        Gitmoji::Bookmark => "🔖"@,
        Gitmoji::Construction => "🚧"@,
        Gitmoji::Pencil2 => "✏️"@,
        Gitmoji::Poop => "💩"@,
        Gitmoji::Rewind => "⏪️"@,
        Gitmoji::TwistedRightwardsArrows => "🔀"@,
        Gitmoji::PageFacingUp => "📄"@,
        Gitmoji::Bulb => "💡"@,
        Gitmoji::Beers => "🍻"@,
        Gitmoji::BustInSilhouette => "👥"@,
        Gitmoji::ClownFace => "🤡"@,
        Gitmoji::SeeNoEvil => "🙈"@,
        Gitmoji::Alembic => "⚗️"@,
        Gitmoji::Wastebasket => "🗑️"@,
        Gitmoji::Coffin => "⚰️"@,
        Gitmoji::TestTube => "🧪"@,
        Gitmoji::Bricks => "🧱"@,
        Gitmoji::MoneyWithWings => "💸"@,
    }
}

/// The textual shortcode of a gitmoji, as a character sequence.
pub open spec fn code_of(g: Gitmoji) -> Seq<char> {
    match g {
        Gitmoji::Boom => ":boom:"@,
        Gitmoji::Sparkles => ":sparkles:"@,
        Gitmoji::ChildrenCrossing => ":children_crossing:"@,
        Gitmoji::Lipstick => ":lipstick:"@,
        Gitmoji::Iphone => ":iphone:"@,
        Gitmoji::Egg => ":egg:"@,
        Gitmoji::ChartWithUpwardsTrend => ":chart_with_upwards_trend:"@,
        Gitmoji::HeavyPlusSign => ":heavy_plus_sign:"@,
        Gitmoji::HeavyMinusSign => ":heavy_minus_sign:"@,
        Gitmoji::PassportControl => ":passport_control:"@,
        Gitmoji::Art => ":art:"@,
        Gitmoji::Ambulance => ":ambulance:"@,
        Gitmoji::Lock => ":lock:"@,
        Gitmoji::Bug => ":bug:"@,
        Gitmoji::Zap => ":zap:"@,
        Gitmoji::GoalNet => ":goal_net:"@,
        Gitmoji::Alien => ":alien:"@,
        Gitmoji::Wheelchair => ":wheelchair:"@,
        Gitmoji::SpeechBalloon => ":speech_balloon:"@,
        Gitmoji::Mag => ":mag:"@,
        Gitmoji::Fire => ":fire:"@,
        Gitmoji::WhiteCheckMark => ":white_check_mark:"@,
        Gitmoji::ClosedLockWithKey => ":closed_lock_with_key:"@,
        Gitmoji::RotatingLight => ":rotating_light:"@,
        Gitmoji::GreenHeart => ":green_heart:"@,
        Gitmoji::ArrowDown => ":arrow_down:"@,
        Gitmoji::ArrowUp => ":arrow_up:"@,
        Gitmoji::Pushpin => ":pushpin:"@,
        Gitmoji::ConstructionWorker => ":construction_worker:"@,
        Gitmoji::Recycle => ":recycle:"@,
        Gitmoji::Wrench => ":wrench:"@,
        Gitmoji::Hammer => ":hammer:"@,
        Gitmoji::GlobeWithMeridians => ":globe_with_meridians:"@,
        Gitmoji::Package => ":package:"@,
        Gitmoji::Truck => ":truck:"@,
        Gitmoji::Bento => ":bento:"@,
        Gitmoji::CardFileBox => ":card_file_box:"@,
        Gitmoji::LoudSound => ":loud_sound:"@,
        Gitmoji::Mute => ":mute:"@,
        Gitmoji::BuildingConstruction => ":building_construction:"@,
        Gitmoji::CameraFlash => ":camera_flash:"@,
        Gitmoji::Label => ":label:"@,
        Gitmoji::Seedling => ":seedling:"@,
        Gitmoji::TriangularFlagOnPost => ":triangular_flag_on_post:"@,
        Gitmoji::Dizzy => ":dizzy:"@,
        Gitmoji::AdhesiveBandage => ":adhesive_bandage:"@,
        Gitmoji::MonocleFace => ":monocle_face:"@,
        Gitmoji::Necktie => ":necktie:"@,
        Gitmoji::Stethoscope => ":stethoscope:"@,
        Gitmoji::Technologist => ":technologist:"@,
        Gitmoji::Thread => ":thread:"@,
        Gitmoji::SafetyVest => ":safety_vest:"@,
        Gitmoji::Memo => ":memo:"@,
        Gitmoji::Rocket => ":rocket:"@,
        Gitmoji::Tada => ":tada:"@,
        Gitmoji::Bookmark => ":bookmark:"@,
        Gitmoji::Construction => ":construction:"@,
        Gitmoji::Pencil2 => ":pencil2:"@,
        Gitmoji::Poop => ":poop:"@,
        Gitmoji::Rewind => ":rewind:"@,
        Gitmoji::TwistedRightwardsArrows => ":twisted_rightwards_arrows:"@,
        Gitmoji::PageFacingUp => ":page_facing_up:"@,
        Gitmoji::Bulb => ":bulb:"@,
        Gitmoji::Beers => ":beers:"@,
        Gitmoji::BustInSilhouette => ":bust_in_silhouette:"@,
        Gitmoji::ClownFace => ":clown_face:"@,
        Gitmoji::SeeNoEvil => ":see_no_evil:"@,
        Gitmoji::Alembic => ":alembic:"@,
        Gitmoji::Wastebasket => ":wastebasket:"@,
        Gitmoji::Coffin => ":coffin:"@,
        Gitmoji::TestTube => ":test_tube:"@,
        Gitmoji::Bricks => ":bricks:"@,
        Gitmoji::MoneyWithWings => ":money_with_wings:"@,
    }
}

/// The severity bucket of each gitmoji.
pub open spec fn severity_of(g: Gitmoji) -> Severity {
    match g {
        Gitmoji::Boom => Severity::Major,
        Gitmoji::Sparkles => Severity::Minor,
        Gitmoji::ChildrenCrossing => Severity::Minor,
        Gitmoji::Lipstick => Severity::Minor,
        Gitmoji::Iphone => Severity::Minor,
        Gitmoji::Egg => Severity::Minor,
        Gitmoji::ChartWithUpwardsTrend => Severity::Minor,
        Gitmoji::HeavyPlusSign => Severity::Minor,
        Gitmoji::HeavyMinusSign => Severity::Minor,
        Gitmoji::PassportControl => Severity::Minor,
        Gitmoji::Art => Severity::Patch,
        Gitmoji::Ambulance => Severity::Patch,
        Gitmoji::Lock => Severity::Patch,
        Gitmoji::Bug => Severity::Patch,
        Gitmoji::Zap => Severity::Patch,
        Gitmoji::GoalNet => Severity::Patch,
        Gitmoji::Alien => Severity::Patch,
        Gitmoji::Wheelchair => Severity::Patch,
        Gitmoji::SpeechBalloon => Severity::Patch,
        Gitmoji::Mag => Severity::Patch,
        Gitmoji::Fire => Severity::Patch,
        Gitmoji::WhiteCheckMark => Severity::Patch,
        Gitmoji::ClosedLockWithKey => Severity::Patch,
        Gitmoji::RotatingLight => Severity::Patch,
        Gitmoji::GreenHeart => Severity::Patch,
        Gitmoji::ArrowDown => Severity::Patch,
        Gitmoji::ArrowUp => Severity::Patch,
        Gitmoji::Pushpin => Severity::Patch,
        Gitmoji::ConstructionWorker => Severity::Patch,
        Gitmoji::Recycle => Severity::Patch,
        Gitmoji::Wrench => Severity::Patch,
        Gitmoji::Hammer => Severity::Patch,
        Gitmoji::GlobeWithMeridians => Severity::Patch,
        Gitmoji::Package => Severity::Patch,
        Gitmoji::Truck => Severity::Patch,
        Gitmoji::Bento => Severity::Patch,
        Gitmoji::CardFileBox => Severity::Patch,
        Gitmoji::LoudSound => Severity::Patch,
        Gitmoji::Mute => Severity::Patch,
        Gitmoji::BuildingConstruction => Severity::Patch,
        Gitmoji::CameraFlash => Severity::Patch,
        Gitmoji::Label => Severity::Patch,
        Gitmoji::Seedling => Severity::Patch,
        Gitmoji::TriangularFlagOnPost => Severity::Patch,
        Gitmoji::Dizzy => Severity::Patch,
        Gitmoji::AdhesiveBandage => Severity::Patch,
        Gitmoji::MonocleFace => Severity::Patch,
        Gitmoji::Necktie => Severity::Patch,
        Gitmoji::Stethoscope => Severity::Patch,
        Gitmoji::Technologist => Severity::Patch,
        Gitmoji::Thread => Severity::Patch,
        Gitmoji::SafetyVest => Severity::Patch,
        Gitmoji::Memo => Severity::Other,
        Gitmoji::Rocket => Severity::Other,
        Gitmoji::Tada => Severity::Other,
        Gitmoji::Bookmark => Severity::Other,
        Gitmoji::Construction => Severity::Other,
        Gitmoji::Pencil2 => Severity::Other,
        Gitmoji::Poop => Severity::Other,
        Gitmoji::Rewind => Severity::Other,
        Gitmoji::TwistedRightwardsArrows => Severity::Other,
        Gitmoji::PageFacingUp => Severity::Other,
        Gitmoji::Bulb => Severity::Other,
        Gitmoji::Beers => Severity::Other,
        Gitmoji::BustInSilhouette => Severity::Other,
        Gitmoji::ClownFace => Severity::Other,
        Gitmoji::SeeNoEvil => Severity::Other,
        Gitmoji::Alembic => Severity::Other,
        Gitmoji::Wastebasket => Severity::Other,
        Gitmoji::Coffin => Severity::Other,
        Gitmoji::TestTube => Severity::Other,
        Gitmoji::Bricks => Severity::Other,
        Gitmoji::MoneyWithWings => Severity::Other,
    }
}

/// The gitmojis of the major bucket, in catalogue order.
pub open spec fn major_list() -> Seq<Gitmoji> {
    seq![
        Gitmoji::Boom,
    ]
}

/// The gitmojis of the minor bucket, in catalogue order.
pub open spec fn minor_list() -> Seq<Gitmoji> {
    seq![
        Gitmoji::Sparkles,
        Gitmoji::ChildrenCrossing,
        Gitmoji::Lipstick,
        Gitmoji::Iphone,
        Gitmoji::Egg,
        Gitmoji::ChartWithUpwardsTrend,
        Gitmoji::HeavyPlusSign,
        Gitmoji::HeavyMinusSign,
        Gitmoji::PassportControl,
    ]
}

/// The gitmojis of the patch bucket, in catalogue order.
pub open spec fn patch_list() -> Seq<Gitmoji> {
    seq![
        Gitmoji::Art,
        Gitmoji::Ambulance,
        Gitmoji::Lock,
        Gitmoji::Bug,
        Gitmoji::Zap,
        Gitmoji::GoalNet,
        Gitmoji::Alien,
        Gitmoji::Wheelchair,
        Gitmoji::SpeechBalloon,
        Gitmoji::Mag,
        Gitmoji::Fire,
        Gitmoji::WhiteCheckMark,
        Gitmoji::ClosedLockWithKey,
        Gitmoji::RotatingLight,
        Gitmoji::GreenHeart,
        Gitmoji::ArrowDown,
        Gitmoji::ArrowUp,
        Gitmoji::Pushpin,
        Gitmoji::ConstructionWorker,
        Gitmoji::Recycle,
        Gitmoji::Wrench,
        Gitmoji::Hammer,
        Gitmoji::GlobeWithMeridians,
        Gitmoji::Package,
        Gitmoji::Truck,
        Gitmoji::Bento,
        Gitmoji::CardFileBox,
        Gitmoji::LoudSound,
        Gitmoji::Mute,
        Gitmoji::BuildingConstruction,
        Gitmoji::CameraFlash,
        Gitmoji::Label,
        Gitmoji::Seedling,
        Gitmoji::TriangularFlagOnPost,
        Gitmoji::Dizzy,
        Gitmoji::AdhesiveBandage,
        Gitmoji::MonocleFace,
        Gitmoji::Necktie,
        Gitmoji::Stethoscope,
        Gitmoji::Technologist,
        Gitmoji::Thread,
        Gitmoji::SafetyVest,
    ]
}

/// The gitmojis of the other bucket, in catalogue order.
pub open spec fn other_list() -> Seq<Gitmoji> {
    seq![
        Gitmoji::Memo,
        Gitmoji::Rocket,
        Gitmoji::Tada,
        Gitmoji::Bookmark,
        Gitmoji::Construction,
        Gitmoji::Pencil2,
        Gitmoji::Poop,
        Gitmoji::Rewind,
        Gitmoji::TwistedRightwardsArrows,
        Gitmoji::PageFacingUp,
        Gitmoji::Bulb,
        Gitmoji::Beers,
        Gitmoji::BustInSilhouette,
        Gitmoji::ClownFace,
        Gitmoji::SeeNoEvil,
        Gitmoji::Alembic,
        Gitmoji::Wastebasket,
        Gitmoji::Coffin,
        Gitmoji::TestTube,
        Gitmoji::Bricks,
        Gitmoji::MoneyWithWings,
    ]
}

/// The whole catalogue in classification order: the severity groups
/// concatenated, most severe first.
pub open spec fn catalogue() -> Seq<Gitmoji> {
    major_list() + minor_list() + patch_list() + other_list()
}

/// Whether a message contains the glyph or the shortcode of `g`.
pub open spec fn matches_gitmoji(g: Gitmoji, msg: Seq<char>) -> bool {
    contains_seq(msg, utf_of(g)) || contains_seq(msg, code_of(g))
}

/// The first gitmoji of `order` whose symbol occurs in `msg`.
pub open spec fn first_match(order: Seq<Gitmoji>, msg: Seq<char>) -> Option<Gitmoji>
    decreases order.len(),
{
    if order.len() == 0 {
        None
    } else if matches_gitmoji(order[0], msg) {
        Some(order[0])
    } else {
        first_match(order.drop_first(), msg)
    }
}

/// The index `first_match` stops at: the position of the first match, or
/// the length of `order` when nothing matches.
pub open spec fn first_match_index(order: Seq<Gitmoji>, msg: Seq<char>) -> int
    decreases order.len(),
{
    if order.len() == 0 {
        0
    } else if matches_gitmoji(order[0], msg) {
        0
    } else {
        1 + first_match_index(order.drop_first(), msg)
    }
}

/// The intention of a commit message: the first catalogue entry whose
/// glyph or shortcode occurs in it, if any.
pub open spec fn intention_of(msg: Seq<char>) -> Option<Gitmoji> {
    first_match(catalogue(), msg)
}

impl Gitmoji {
    /// The glyph of this gitmoji.
    pub fn as_utf(&self) -> (r: &'static str)
        ensures
            r@ == utf_of(*self),
    {
        match self {
            Gitmoji::Boom => "💥",
            Gitmoji::Sparkles => "✨",
            Gitmoji::ChildrenCrossing => "🚸",
            Gitmoji::Lipstick => "💄",
            Gitmoji::Iphone => "📱",
            Gitmoji::Egg => "🥚",
            Gitmoji::ChartWithUpwardsTrend => "📈",
            Gitmoji::HeavyPlusSign => "➕",
            Gitmoji::HeavyMinusSign => "➖",
            Gitmoji::PassportControl => "🛂",
            Gitmoji::Art => "🎨",
            Gitmoji::Ambulance => "🚑️",
            Gitmoji::Lock => "🔒️",
            Gitmoji::Bug => "🐛",
            Gitmoji::Zap => "⚡️",
            Gitmoji::GoalNet => "🥅",
            Gitmoji::Alien => "👽️",
            Gitmoji::Wheelchair => "♿️",
            Gitmoji::SpeechBalloon => "💬",
            Gitmoji::Mag => "🔍️",
            Gitmoji::Fire => "🔥",
            Gitmoji::WhiteCheckMark => "✅",
            Gitmoji::ClosedLockWithKey => "🔐",
            Gitmoji::RotatingLight => "🚨",
            Gitmoji::GreenHeart => "💚",
            Gitmoji::ArrowDown => "⬇️",
            Gitmoji::ArrowUp => "⬆️",
            Gitmoji::Pushpin => "📌",
            Gitmoji::ConstructionWorker => "👷",
            Gitmoji::Recycle => "♻️",
            Gitmoji::Wrench => "🔧",
            Gitmoji::Hammer => "🔨",
            Gitmoji::GlobeWithMeridians => "🌐",
            Gitmoji::Package => "📦️",
            Gitmoji::Truck => "🚚",
            Gitmoji::Bento => "🍱",
            Gitmoji::CardFileBox => "🗃️",
            Gitmoji::LoudSound => "🔊",
            Gitmoji::Mute => "🔇",
            Gitmoji::BuildingConstruction => "🏗️",
            Gitmoji::CameraFlash => "📸",
            Gitmoji::Label => "🏷️",
            Gitmoji::Seedling => "🌱",
            Gitmoji::TriangularFlagOnPost => "🚩",
            Gitmoji::Dizzy => "💫",
            Gitmoji::AdhesiveBandage => "🩹",
            Gitmoji::MonocleFace => "🧐",
            Gitmoji::Necktie => "👔",
            Gitmoji::Stethoscope => "🩺",
            Gitmoji::Technologist => "🧑",
            Gitmoji::Thread => "🧵",
            Gitmoji::SafetyVest => "🦺",
            Gitmoji::Memo => "📝",
            Gitmoji::Rocket => "🚀",
            Gitmoji::Tada => "🎉",
            Gitmoji::Bookmark => "🔖",
            Gitmoji::Construction => "🚧",
            Gitmoji::Pencil2 => "✏️",
            Gitmoji::Poop => "💩",
            Gitmoji::Rewind => "⏪️",
            Gitmoji::TwistedRightwardsArrows => "🔀",
            Gitmoji::PageFacingUp => "📄",
            Gitmoji::Bulb => "💡",
            Gitmoji::Beers => "🍻",
            Gitmoji::BustInSilhouette => "👥",
            Gitmoji::ClownFace => "🤡",
            Gitmoji::SeeNoEvil => "🙈",
            Gitmoji::Alembic => "⚗️",
            Gitmoji::Wastebasket => "🗑️",
            Gitmoji::Coffin => "⚰️",
            Gitmoji::TestTube => "🧪",
            Gitmoji::Bricks => "🧱",
            Gitmoji::MoneyWithWings => "💸",
        }
    }

    /// The textual shortcode of this gitmoji.
    pub fn as_shortcode(&self) -> (r: &'static str)
        ensures
            r@ == code_of(*self),
    {
        match self {
            Gitmoji::Boom => ":boom:",
            Gitmoji::Sparkles => ":sparkles:",
            Gitmoji::ChildrenCrossing => ":children_crossing:",
            Gitmoji::Lipstick => ":lipstick:",
            Gitmoji::Iphone => ":iphone:",
            Gitmoji::Egg => ":egg:",
            Gitmoji::ChartWithUpwardsTrend => ":chart_with_upwards_trend:",
            Gitmoji::HeavyPlusSign => ":heavy_plus_sign:",
            Gitmoji::HeavyMinusSign => ":heavy_minus_sign:",
            Gitmoji::PassportControl => ":passport_control:",
            Gitmoji::Art => ":art:",
            Gitmoji::Ambulance => ":ambulance:",
            Gitmoji::Lock => ":lock:",
            Gitmoji::Bug => ":bug:",
            Gitmoji::Zap => ":zap:",
            Gitmoji::GoalNet => ":goal_net:",
            Gitmoji::Alien => ":alien:",
            Gitmoji::Wheelchair => ":wheelchair:",
            Gitmoji::SpeechBalloon => ":speech_balloon:",
            Gitmoji::Mag => ":mag:",
            Gitmoji::Fire => ":fire:",
            Gitmoji::WhiteCheckMark => ":white_check_mark:",
            Gitmoji::ClosedLockWithKey => ":closed_lock_with_key:",
            Gitmoji::RotatingLight => ":rotating_light:",
            Gitmoji::GreenHeart => ":green_heart:",
            Gitmoji::ArrowDown => ":arrow_down:",
            Gitmoji::ArrowUp => ":arrow_up:",
            Gitmoji::Pushpin => ":pushpin:",
            Gitmoji::ConstructionWorker => ":construction_worker:",
            Gitmoji::Recycle => ":recycle:",
            Gitmoji::Wrench => ":wrench:",
            Gitmoji::Hammer => ":hammer:",
            Gitmoji::GlobeWithMeridians => ":globe_with_meridians:",
            Gitmoji::Package => ":package:",
            Gitmoji::Truck => ":truck:",
            Gitmoji::Bento => ":bento:",
            Gitmoji::CardFileBox => ":card_file_box:",
            Gitmoji::LoudSound => ":loud_sound:",
            Gitmoji::Mute => ":mute:",
            Gitmoji::BuildingConstruction => ":building_construction:",
            Gitmoji::CameraFlash => ":camera_flash:",
            Gitmoji::Label => ":label:",
            Gitmoji::Seedling => ":seedling:",
            Gitmoji::TriangularFlagOnPost => ":triangular_flag_on_post:",
            Gitmoji::Dizzy => ":dizzy:",
            Gitmoji::AdhesiveBandage => ":adhesive_bandage:",
            Gitmoji::MonocleFace => ":monocle_face:",
            Gitmoji::Necktie => ":necktie:",
            Gitmoji::Stethoscope => ":stethoscope:",
            Gitmoji::Technologist => ":technologist:",
            Gitmoji::Thread => ":thread:",
            Gitmoji::SafetyVest => ":safety_vest:",
            Gitmoji::Memo => ":memo:",
            Gitmoji::Rocket => ":rocket:",
            Gitmoji::Tada => ":tada:",
            Gitmoji::Bookmark => ":bookmark:",
            Gitmoji::Construction => ":construction:",
            Gitmoji::Pencil2 => ":pencil2:",
            Gitmoji::Poop => ":poop:",
            Gitmoji::Rewind => ":rewind:",
            Gitmoji::TwistedRightwardsArrows => ":twisted_rightwards_arrows:",
            Gitmoji::PageFacingUp => ":page_facing_up:",
            Gitmoji::Bulb => ":bulb:",
            Gitmoji::Beers => ":beers:",
            Gitmoji::BustInSilhouette => ":bust_in_silhouette:",
            Gitmoji::ClownFace => ":clown_face:",
            Gitmoji::SeeNoEvil => ":see_no_evil:",
            Gitmoji::Alembic => ":alembic:",
            Gitmoji::Wastebasket => ":wastebasket:",
            Gitmoji::Coffin => ":coffin:",
            Gitmoji::TestTube => ":test_tube:",
            Gitmoji::Bricks => ":bricks:",
            Gitmoji::MoneyWithWings => ":money_with_wings:",
        }
    }

    /// The glyph of this gitmoji as an owned string, for reports.
    pub fn display_string(&self) -> (r: String)
        ensures
            r@ == utf_of(*self),
    {
        String::from_str(self.as_utf())
    }

    /// Classifies a text: the first catalogue gitmoji whose glyph or
    /// shortcode occurs in it, or an error when none does.
    pub fn try_from(value: &str) -> (r: Result<Gitmoji, ()>)
        ensures
            match r {
                Ok(g) => intention_of(value@) == Some(g),
                Err(_) => intention_of(value@) is None,
            },
    {
        let order = all_gitmojis();
        let mut i: usize = 0;
        proof {
            assert(catalogue().skip(0) =~= catalogue());
        }
        while i < order.len()
            invariant
                order@ == catalogue(),
                0 <= i <= order@.len(),
                first_match(catalogue(), value@) == first_match(
                    catalogue().skip(i as int),
                    value@,
                ),
            decreases order@.len() - i,
        {
            let g = order[i];
            if str_contains(value, g.as_utf()) || str_contains(value, g.as_shortcode()) {
                proof {
                    let tail = catalogue().skip(i as int);
                    assert(tail[0] == catalogue()[i as int]);
                    assert(first_match(tail, value@) == Some(g));
                }
                return Ok(g);
            }
            proof {
                lemma_first_match_skip_step(catalogue(), value@, i as int);
            }
            i += 1;
        }
        proof {
            assert(catalogue().skip(i as int).len() == 0);
        }
        Err(())
    }
}

/// A gitmoji symbol pair: the glyph and the textual shortcode.
#[derive(Clone, Copy, Debug)]
pub struct Emoji {
    pub utf: &'static str,
    pub shortcode: &'static str,
}

impl Emoji {
    /// Packs a glyph and a shortcode into an `Emoji`.
    pub fn new(utf: &'static str, shortcode: &'static str) -> (r: Emoji)
        ensures
            r.utf@ == utf@,
            r.shortcode@ == shortcode@,
    {
        Emoji { utf, shortcode }
    }
}

/// The major-bucket gitmojis, in catalogue order.
pub fn major_intentions() -> (v: Vec<Gitmoji>)
    ensures
        v@ == major_list(),
{
    let mut v: Vec<Gitmoji> = Vec::new();
    v.push(Gitmoji::Boom);
    proof {
        assert(v@ =~= major_list());
    }
    v
}

/// The minor-bucket gitmojis, in catalogue order.
pub fn minor_intentions() -> (v: Vec<Gitmoji>)
    ensures
        v@ == minor_list(),
{
    let mut v: Vec<Gitmoji> = Vec::new();
    v.push(Gitmoji::Sparkles);
    v.push(Gitmoji::ChildrenCrossing);
    v.push(Gitmoji::Lipstick);
    v.push(Gitmoji::Iphone);
    v.push(Gitmoji::Egg);
    v.push(Gitmoji::ChartWithUpwardsTrend);
    v.push(Gitmoji::HeavyPlusSign);
    v.push(Gitmoji::HeavyMinusSign);
    v.push(Gitmoji::PassportControl);
    proof {
        assert(v@ =~= minor_list());
    }
    v
}

/// The patch-bucket gitmojis, in catalogue order.
pub fn patch_intentions() -> (v: Vec<Gitmoji>)
    ensures
        v@ == patch_list(),
{
    let mut v: Vec<Gitmoji> = Vec::new();
    v.push(Gitmoji::Art);
    v.push(Gitmoji::Ambulance);
    v.push(Gitmoji::Lock);
    v.push(Gitmoji::Bug);
    v.push(Gitmoji::Zap);
    v.push(Gitmoji::GoalNet);
    v.push(Gitmoji::Alien);
    v.push(Gitmoji::Wheelchair);
    v.push(Gitmoji::SpeechBalloon);
    v.push(Gitmoji::Mag);
    v.push(Gitmoji::Fire);
    v.push(Gitmoji::WhiteCheckMark);
    v.push(Gitmoji::ClosedLockWithKey);
    v.push(Gitmoji::RotatingLight);
    v.push(Gitmoji::GreenHeart);
    v.push(Gitmoji::ArrowDown);
    v.push(Gitmoji::ArrowUp);
    v.push(Gitmoji::Pushpin);
    v.push(Gitmoji::ConstructionWorker);
    v.push(Gitmoji::Recycle);
    v.push(Gitmoji::Wrench);
    v.push(Gitmoji::Hammer);
    v.push(Gitmoji::GlobeWithMeridians);
    v.push(Gitmoji::Package);
    v.push(Gitmoji::Truck);
    v.push(Gitmoji::Bento);
    v.push(Gitmoji::CardFileBox);
    v.push(Gitmoji::LoudSound);
    v.push(Gitmoji::Mute);
    v.push(Gitmoji::BuildingConstruction);
    v.push(Gitmoji::CameraFlash);
    v.push(Gitmoji::Label);
    v.push(Gitmoji::Seedling);
    v.push(Gitmoji::TriangularFlagOnPost);
    v.push(Gitmoji::Dizzy);
    v.push(Gitmoji::AdhesiveBandage);
    v.push(Gitmoji::MonocleFace);
    v.push(Gitmoji::Necktie);
    v.push(Gitmoji::Stethoscope);
    v.push(Gitmoji::Technologist);
    v.push(Gitmoji::Thread);
    v.push(Gitmoji::SafetyVest);
    proof {
        assert(v@ =~= patch_list());
    }
    v
}

/// The other-bucket gitmojis, in catalogue order.
pub fn other_intentions() -> (v: Vec<Gitmoji>)
    ensures
        v@ == other_list(),
{
    let mut v: Vec<Gitmoji> = Vec::new();
    v.push(Gitmoji::Memo);
    v.push(Gitmoji::Rocket);
    v.push(Gitmoji::Tada);
    v.push(Gitmoji::Bookmark);
    v.push(Gitmoji::Construction);
    v.push(Gitmoji::Pencil2);
    v.push(Gitmoji::Poop);
    v.push(Gitmoji::Rewind);
    v.push(Gitmoji::TwistedRightwardsArrows);
    v.push(Gitmoji::PageFacingUp);
    v.push(Gitmoji::Bulb);
    v.push(Gitmoji::Beers);
    v.push(Gitmoji::BustInSilhouette);
    v.push(Gitmoji::ClownFace);
    v.push(Gitmoji::SeeNoEvil);
    v.push(Gitmoji::Alembic);
    v.push(Gitmoji::Wastebasket);
    v.push(Gitmoji::Coffin);
    v.push(Gitmoji::TestTube);
    v.push(Gitmoji::Bricks);
    v.push(Gitmoji::MoneyWithWings);
    proof {
        assert(v@ =~= other_list());
    }
    v
}

/// Every gitmoji, in catalogue order.
pub fn all_gitmojis() -> (v: Vec<Gitmoji>)
    ensures
        v@ == catalogue(),
{
    let mut v = major_intentions();
    let mut rest = minor_intentions();
    v.append(&mut rest);
    let mut rest2 = patch_intentions();
    v.append(&mut rest2);
    let mut rest3 = other_intentions();
    v.append(&mut rest3);
    v
}

/// The catalogue with the symbol pair of each gitmoji, in catalogue order.
pub fn gitmoji_map() -> (r: Vec<(Gitmoji, Emoji)>)
    ensures
        r@.len() == catalogue().len(),
        forall|i: int|
            0 <= i < r@.len() ==> {
                &&& (#[trigger] r@[i]).0 == catalogue()[i]
                &&& r@[i].1.utf@ == utf_of(catalogue()[i])
                &&& r@[i].1.shortcode@ == code_of(catalogue()[i])
            },
{
    let order = all_gitmojis();
    let mut r: Vec<(Gitmoji, Emoji)> = Vec::new();
    let mut i: usize = 0;
    while i < order.len()
        invariant
            order@ == catalogue(),
            0 <= i <= order@.len(),
            r@.len() == i,
            forall|j: int|
                0 <= j < i ==> {
                    &&& (#[trigger] r@[j]).0 == catalogue()[j]
                    &&& r@[j].1.utf@ == utf_of(catalogue()[j])
                    &&& r@[j].1.shortcode@ == code_of(catalogue()[j])
                },
        decreases order@.len() - i,
    {
        let g = order[i];
        r.push((g, Emoji::new(g.as_utf(), g.as_shortcode())));
        i += 1;
    }
    r
}

/// Every entry of each severity list has that severity.
proof fn lemma_list_severities()
    ensures
        forall|i: int|
            0 <= i < major_list().len() ==> severity_of(#[trigger] major_list()[i])
                == Severity::Major,
        forall|i: int|
            0 <= i < minor_list().len() ==> severity_of(#[trigger] minor_list()[i])
                == Severity::Minor,
        forall|i: int|
            0 <= i < patch_list().len() ==> severity_of(#[trigger] patch_list()[i])
                == Severity::Patch,
        forall|i: int|
            0 <= i < other_list().len() ==> severity_of(#[trigger] other_list()[i])
                == Severity::Other,
{
}

/// For a catalogue member, belonging to a severity list and having that
/// severity are the same thing.
pub proof fn lemma_catalogue_member_severity(g: Gitmoji)
    requires
        catalogue().contains(g),
    ensures
        severity_of(g) == Severity::Major <==> major_list().contains(g),
        severity_of(g) == Severity::Minor <==> minor_list().contains(g),
        severity_of(g) == Severity::Patch <==> patch_list().contains(g),
        severity_of(g) == Severity::Other <==> other_list().contains(g),
{
    lemma_list_severities();
    if major_list().contains(g) {
        let i = choose|i: int| 0 <= i < major_list().len() && major_list()[i] == g;
        assert(severity_of(g) == Severity::Major);
    }
    if minor_list().contains(g) {
        let i = choose|i: int| 0 <= i < minor_list().len() && minor_list()[i] == g;
        assert(severity_of(g) == Severity::Minor);
    }
    if patch_list().contains(g) {
        let i = choose|i: int| 0 <= i < patch_list().len() && patch_list()[i] == g;
        assert(severity_of(g) == Severity::Patch);
    }
    if other_list().contains(g) {
        let i = choose|i: int| 0 <= i < other_list().len() && other_list()[i] == g;
        assert(severity_of(g) == Severity::Other);
    }
    let i = choose|i: int| 0 <= i < catalogue().len() && catalogue()[i] == g;
    let a = major_list().len() as int;
    let b = minor_list().len() as int;
    let c = patch_list().len() as int;
    if i < a {
        assert(major_list()[i] == g);
        assert(major_list().contains(g));
    } else if i < a + b {
        assert(minor_list()[i - a] == g);
        assert(minor_list().contains(g));
    } else if i < a + b + c {
        assert(patch_list()[i - a - b] == g);
        assert(patch_list().contains(g));
    } else {
        assert(other_list()[i - a - b - c] == g);
        assert(other_list().contains(g));
    }
}

/// The classifier is a fixed-priority scan: whatever `first_match`
/// returns, every earlier catalogue entry fails to match, and a `Some`
/// result is the entry at the stopping index itself. In particular a
/// message that contains symbols of several gitmojis is classified as
/// exactly the first of them in catalogue order, never more than one.
pub proof fn lemma_first_match_is_earliest(order: Seq<Gitmoji>, msg: Seq<char>)
    ensures
        0 <= first_match_index(order, msg) <= order.len(),
        forall|j: int|
            0 <= j < first_match_index(order, msg) ==> !matches_gitmoji(order[j], msg),
        first_match_index(order, msg) < order.len() ==> matches_gitmoji(
            order[first_match_index(order, msg)],
            msg,
        ) && first_match(order, msg) == Some(order[first_match_index(order, msg)]),
        first_match_index(order, msg) == order.len() ==> first_match(order, msg) is None,
    decreases order.len(),
{
    if order.len() == 0 {
    } else if matches_gitmoji(order[0], msg) {
    } else {
        let rest = order.drop_first();
        lemma_first_match_is_earliest(rest, msg);
        let k = first_match_index(order, msg);
        assert(k == 1 + first_match_index(rest, msg));
        assert forall|j: int| 0 <= j < k implies !matches_gitmoji(order[j], msg) by {
            if j >= 1 {
                assert(rest[j - 1] == order[j]);
            }
        }
        if k < order.len() {
            assert(rest[k - 1] == order[k]);
        }
    }
}

/// A classified intention is a catalogue member.
pub proof fn lemma_intention_in_catalogue(msg: Seq<char>)
    ensures
        intention_of(msg) matches Some(g) ==> catalogue().contains(g),
{
    lemma_first_match_is_earliest(catalogue(), msg);
    let k = first_match_index(catalogue(), msg);
    if k < catalogue().len() {
        assert(catalogue()[k] == catalogue()[k]);
        assert(catalogue().contains(catalogue()[k]));
    }
}

/// Stepping the scan past a non-matching entry leaves the result alone.
proof fn lemma_first_match_skip_step(order: Seq<Gitmoji>, msg: Seq<char>, i: int)
    requires
        0 <= i < order.len(),
        !matches_gitmoji(order[i], msg),
    ensures
        first_match(order.skip(i), msg) == first_match(order.skip(i + 1), msg),
{
    let tail = order.skip(i);
    assert(tail[0] == order[i]);
    assert(tail.drop_first() =~= order.skip(i + 1));
}

} // verus!
