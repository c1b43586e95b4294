//! The font that comes with the program.
use vstd::prelude::*;
use vstd::string::*;

use crate::text::{chars_of, concat2, concat3};

verus! {

/// Where the font lies below the directory of the program's resources.
pub open spec fn font_below(root: Seq<char>) -> Seq<char> {
    let file = "assets/fonts/JetBrainsMono-Regular.ttf"@;
    if root.len() == 0 || root.last() == '/' {
        root + file
    } else {
        root + "/"@ + file
    }
}

/// Returns the path of the font below the directory of the resources.
pub fn bundled_font_path(root: &str) -> (r: String)
    ensures
        r@ == font_below(root@),
{
    let letters = chars_of(root);
    if letters.len() == 0 || letters[letters.len() - 1] == '/' {
        concat2(root, "assets/fonts/JetBrainsMono-Regular.ttf")
    } else {
        concat3(root, "/", "assets/fonts/JetBrainsMono-Regular.ttf")
    }
}

/// What stands in the way of registering the font.
#[derive(Debug, PartialEq, Eq)]
pub enum FontError {
    Missing(String),
    PathContainsNul,
    NoConfiguration,
    Rejected(String),
}

impl FontError {
    /// The text of the error.
    pub fn message(&self) -> (r: String)
        ensures
            r@ == (match *self {
                FontError::Missing(path) => "bundled font missing: "@ + path@,
                FontError::PathContainsNul => "bundled font path contains NUL"@,
                FontError::NoConfiguration => "fontconfig current config is null"@,
                FontError::Rejected(path) => "fontconfig rejected bundled font: "@ + path@,
            }),
    {
        match self {
            FontError::Missing(path) => concat2("bundled font missing: ", path.as_str()),
            FontError::PathContainsNul => "bundled font path contains NUL".to_owned(),
            FontError::NoConfiguration => "fontconfig current config is null".to_owned(),
            FontError::Rejected(path) => concat2(
                "fontconfig rejected bundled font: ",
                path.as_str(),
            ),
        }
    }
}

/// The registration that is under way.
#[derive(Debug, Clone, Copy, PartialEq, Eq, Structural)]
pub enum FontStep {
    /// The file is to be looked for.
    Look,
    /// The current configuration is to be asked for.
    Configure,
    /// The file is to be added to the configuration.
    Install,
    /// The fonts are to be built anew; whether that works does not matter.
    Build,
}

/// Goes one step further: `worked` tells how the step went.
pub fn register_bundled_fonts(path: &str, step: FontStep, worked: bool) -> (r: Result<
    FontStep,
    FontError,
>)
    ensures
        match step {
            FontStep::Look => if !worked {
                r matches Err(FontError::Missing(p)) && p@ == path@
            } else if path@.contains('\0') {
                r matches Err(FontError::PathContainsNul)
            } else {
                r matches Ok(FontStep::Configure)
            },
            FontStep::Configure => if worked {
                r matches Ok(FontStep::Install)
            } else {
                r matches Err(FontError::NoConfiguration)
            },
            FontStep::Install => if worked {
                r matches Ok(FontStep::Build)
            } else {
                r matches Err(FontError::Rejected(p)) && p@ == path@
            },
            FontStep::Build => r matches Ok(FontStep::Build),
        },
{
    match step {
        FontStep::Look => {
            if !worked {
                Err(FontError::Missing(path.to_owned()))
            } else if holds_nul(path) {
                Err(FontError::PathContainsNul)
            } else {
                Ok(FontStep::Configure)
            }
        },
        FontStep::Configure => {
            if worked {
                Ok(FontStep::Install)
            } else {
                Err(FontError::NoConfiguration)
            }
        },
        FontStep::Install => {
            if worked {
                Ok(FontStep::Build)
            } else {
                Err(FontError::Rejected(path.to_owned()))
            }
        },
        FontStep::Build => Ok(FontStep::Build),
    }
}

fn holds_nul(path: &str) -> (r: bool)
    ensures
        r == path@.contains('\0'),
{
    let letters = chars_of(path);
    let mut i: usize = 0;
    while i < letters.len()
        invariant
            i <= letters.len(),
            letters@ == path@,
            forall|j: int| 0 <= j < i ==> letters@[j] != '\0',
        decreases letters.len() - i,
    {
        if letters[i] == '\0' {
            assert(path@[i as int] == '\0');
            return true;
        }
        i += 1;
    }
    false
}

} // verus!
