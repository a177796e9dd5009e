//! The options of an image resize request.
use crate::text::same_text;
use vstd::prelude::*;

verus! {

/// The target width of a resize.
#[derive(Debug, Clone, Copy, PartialEq, Eq, Structural)]
pub enum SizeOption {
    Small,
    Medium,
    Large,
}

/// Whether one image is resized, or every image of a folder.
#[derive(Debug, Clone, Copy, PartialEq, Eq, Structural)]
pub enum Mode {
    Single,
    All,
}

pub open spec fn width_of(size: SizeOption) -> u32 {
    match size {
        SizeOption::Small => 640,
        SizeOption::Medium => 1024,
        SizeOption::Large => 1920,
    }
}

pub open spec fn size_named(name: Seq<char>) -> Option<SizeOption> {
    if name == "small"@ {
        Some(SizeOption::Small)
    } else if name == "medium"@ {
        Some(SizeOption::Medium)
    } else if name == "large"@ {
        Some(SizeOption::Large)
    } else {
        None
    }
}

pub open spec fn mode_named(name: Seq<char>) -> Option<Mode> {
    if name == "single"@ {
        Some(Mode::Single)
    } else if name == "all"@ {
        Some(Mode::All)
    } else {
        None
    }
}

impl SizeOption {
    /// The width in pixels.
    pub fn width(self) -> (pixels: u32)
        ensures
            pixels == width_of(self),
    {
        match self {
            SizeOption::Small => 640,
            SizeOption::Medium => 1024,
            SizeOption::Large => 1920,
        }
    }

    /// The size called `name`, if there is one.
    pub fn parse(name: &str) -> (size: Option<SizeOption>)
        ensures
            size == size_named(name@),
    {
        if same_text(name, "small") {
            Some(SizeOption::Small)
        } else if same_text(name, "medium") {
            Some(SizeOption::Medium)
        } else if same_text(name, "large") {
            Some(SizeOption::Large)
        } else {
            None
        }
    }
}

impl Mode {
    /// The mode called `name`, if there is one.
    pub fn parse(name: &str) -> (mode: Option<Mode>)
        ensures
            mode == mode_named(name@),
    {
        if same_text(name, "single") {
            Some(Mode::Single)
        } else if same_text(name, "all") {
            Some(Mode::All)
        } else {
            None
        }
    }
}

} // verus!
