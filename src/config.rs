//! Where the media tools are found.
use vstd::prelude::*;

verus! {

/// The inspection and rendering tools' executables.
#[derive(Clone, Debug)]
pub struct ToolPaths {
    pub ffmpeg: String,
    pub ffprobe: String,
}

/// The executable of `tool` where no override is set.
pub open spec fn default_tool(tool: Seq<char>, windows: bool) -> Seq<char> {
    if windows {
        tool + ".exe"@
    } else {
        tool
    }
}

pub open spec fn chosen_tool(override_path: Option<String>, tool: Seq<char>, windows: bool) -> Seq<
    char,
> {
    match override_path {
        Some(p) => p@,
        None => default_tool(tool, windows),
    }
}

fn tool_path(override_path: Option<String>, tool: &str, windows: bool) -> (r: String)
    ensures
        r@ == chosen_tool(override_path, tool@, windows),
{
    match override_path {
        Some(p) => p,
        None => {
            let mut s = String::from_str(tool);
            if windows {
                s.append(".exe");
            }
            s
        },
    }
}

impl ToolPaths {
    /// The tools named by the overrides where they are set, else `ffmpeg` and
    /// `ffprobe`, with `.exe` on Windows.
    pub fn resolve(
        ffmpeg_override: Option<String>,
        ffprobe_override: Option<String>,
        windows: bool,
    ) -> (r: ToolPaths)
        ensures
            r.ffmpeg@ == chosen_tool(ffmpeg_override, "ffmpeg"@, windows),
            r.ffprobe@ == chosen_tool(ffprobe_override, "ffprobe"@, windows),
    {
        ToolPaths {
            ffmpeg: tool_path(ffmpeg_override, "ffmpeg", windows),
            ffprobe: tool_path(ffprobe_override, "ffprobe", windows),
        }
    }
}

} // verus!
