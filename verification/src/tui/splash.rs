//! The start-up splash: the banner glyphs and which variant of the splash
//! fits a terminal of a given size.
use vstd::prelude::*;

verus! {

/// The ANSI-shadow "RADI" banner, six rows of 27 cells.
pub const BANNER: &'static str = "\
██████╗  █████╗ ██████╗ ██╗
██╔══██╗██╔══██╗██╔══██╗██║
██████╔╝███████║██║  ██║██║
██╔══██╗██╔══██║██║  ██║██║
██║  ██║██║  ██║██████╔╝██║
╚═╝  ╚═╝╚═╝  ╚═╝╚═════╝ ╚═╝";

pub const BANNER_WIDTH: u16 = 27;
pub const BANNER_HEIGHT: u16 = 6;

pub const SUBTITLE: &'static str = "The TUI podcast recorder";
pub const TAGLINE: &'static str = "with ML noise suppression";
pub const HINT: &'static str = "press any key\u{2026}";

/// Which splash variant is drawn.
#[derive(Debug, Clone, Copy, PartialEq, Eq)]
pub enum SplashLayout {
    /// Banner, subtitle, tagline and hint.
    Full,
    /// Big "RADI" text, subtitle and hint.
    BigText,
    /// Three plain lines.
    Plain,
}

/// The largest variant that fits: the full splash needs the banner plus
/// four columns and five rows, the big-text one 20×8 cells.
pub open spec fn splash_fit(width: u16, height: u16) -> SplashLayout {
    if width >= BANNER_WIDTH + 4 && height >= BANNER_HEIGHT + 5 {
        SplashLayout::Full
    } else if width >= 20 && height >= 8 {
        SplashLayout::BigText
    } else {
        SplashLayout::Plain
    }
}

pub fn splash_layout(width: u16, height: u16) -> (r: SplashLayout)
    ensures
        r == splash_fit(width, height),
{
    if width >= BANNER_WIDTH + 4 && height >= BANNER_HEIGHT + 5 {
        SplashLayout::Full
    } else if width >= 20 && height >= 8 {
        SplashLayout::BigText
    } else {
        SplashLayout::Plain
    }
}

} // verus!
