//! Choices of the Windows bundle build.
use vstd::prelude::*;

use crate::text;

verus! {

/// Plug-in format of a Windows bundle.
#[derive(Clone, Copy, Debug, PartialEq, Eq, Structural)]
pub enum BundleFormat {
    /// A CLAP plug-in.
    Clap,
    /// A VST3 plug-in.
    Vst3,
}

/// A path separator as the Windows linker expects it.
pub open spec fn windows_separator(c: char) -> char {
    if c == '/' {
        '\\'
    } else {
        c
    }
}

/// The linker argument for an output path.
pub open spec fn link_arg(path: Seq<char>) -> Seq<char> {
    "/OUT:"@ + Seq::new(path.len(), |i: int| windows_separator(path[i]))
}

/// Write the linker argument for an output path. The linker takes the argument
/// literally, so it is not quoted.
pub fn windows_rustc_link_arg(output_path: &str) -> (result: String)
    ensures
        result@ == link_arg(output_path@),
{
    let length: usize = output_path.unicode_len();
    let mut argument: String = String::from_str("/OUT:");
    let mut i: usize = 0;
    proof {
        reveal_strlit("\\");
        assert(argument@ =~= "/OUT:"@ + Seq::new(0, |j: int| windows_separator(output_path@[j])));
    }
    while i < length
        invariant
            i <= length == output_path@.len(),
            argument@ == "/OUT:"@ + Seq::new(
                i as nat,
                |j: int| windows_separator(output_path@[j]),
            ),
            "\\"@ == seq!['\\'],
        decreases length - i,
    {
        let ghost before = argument@;
        if output_path.get_char(i) == '/' {
            argument.append("\\");
        } else {
            argument.append(output_path.substring_char(i, i + 1));
        }
        assert(argument@ =~= before.push(windows_separator(output_path@[i as int])));
        assert(argument@ =~= "/OUT:"@ + Seq::new(
            (i + 1) as nat,
            |j: int| windows_separator(output_path@[j]),
        ));
        i = i + 1;
    }
    argument
}

/// The format to bundle: the one that was named, else the one that the enabled
/// features point to. There is none for a name that is not known.
pub open spec fn format_of(named: Option<Seq<char>>, vst3_enabled: bool) -> Option<BundleFormat> {
    match named {
        Some(name) => if name == "clap"@ {
            Some(BundleFormat::Clap)
        } else if name == "vst3"@ {
            Some(BundleFormat::Vst3)
        } else {
            None
        },
        None => if vst3_enabled {
            Some(BundleFormat::Vst3)
        } else {
            Some(BundleFormat::Clap)
        },
    }
}

/// Compute [`format_of`].
pub fn bundle_format(named: Option<&str>, vst3_enabled: bool) -> (result: Option<BundleFormat>)
    ensures
        result == format_of(
            match named {
                Some(name) => Some(name@),
                None => None,
            },
            vst3_enabled,
        ),
{
    match named {
        Some(name) => {
            if text::equal(name, "clap") {
                Some(BundleFormat::Clap)
            } else if text::equal(name, "vst3") {
                Some(BundleFormat::Vst3)
            } else {
                None
            }
        },
        None => {
            if vst3_enabled {
                Some(BundleFormat::Vst3)
            } else {
                Some(BundleFormat::Clap)
            }
        },
    }
}

/// The argument is one prefix longer than the path, holds no `/` behind the
/// prefix, and holds a quote only where the path does.
pub proof fn link_arg_is_normalized(path: Seq<char>, i: int)
    requires
        0 <= i < path.len(),
    ensures
        link_arg(path).len() == 5 + path.len(),
        link_arg(path)[5 + i] != '/',
        path[i] != '/' ==> link_arg(path)[5 + i] == path[i],
        link_arg(path)[5 + i] == '"' <==> path[i] == '"',
{
    reveal_strlit("/OUT:");
}

/// The argument is the switch, followed by the path with every slash turned
/// around and every other character as it is.
pub proof fn link_arg_turns_slashes_around(path: Seq<char>, i: int)
    requires
        0 <= i < path.len(),
    ensures
        link_arg(path).take(5) == seq!['/', 'O', 'U', 'T', ':'],
        path[i] == '/' ==> link_arg(path)[5 + i] == '\\',
        path[i] != '/' ==> link_arg(path)[5 + i] == path[i],
{
    reveal_strlit("/OUT:");
    assert(link_arg(path).take(5) =~= seq!['/', 'O', 'U', 'T', ':']);
}

/// A named format is taken whatever is enabled, an unknown name is refused, and
/// without a name the enabled features decide.
pub proof fn formats_are_named_or_enabled(name: Seq<char>, vst3_enabled: bool)
    ensures
        format_of(Some("clap"@), vst3_enabled) == Some(BundleFormat::Clap),
        format_of(Some("vst3"@), vst3_enabled) == Some(BundleFormat::Vst3),
        format_of(Some(name), vst3_enabled) is None <==> name != "clap"@ && name != "vst3"@,
        format_of(None, true) == Some(BundleFormat::Vst3),
        format_of(None, false) == Some(BundleFormat::Clap),
{
    reveal_strlit("clap");
    reveal_strlit("vst3");
    assert("clap"@[0] != "vst3"@[0]);
}

} // verus!
