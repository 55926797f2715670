use vstd::prelude::*;
use vstd::string::StringExecFns;

verus! {

/// Width of the demo editor window, in pixels.
pub const WINDOW_WIDTH: u32 = 500;

/// Height of the demo editor window, in pixels.
pub const WINDOW_HEIGHT: u32 = 500;

/// One drawing operation for a 2D immediate-mode backend. Color channels are
/// given in tenths of full intensity (0 is none, 10 is full); coordinates and
/// sizes are in pixels.
#[derive(Clone, Debug, PartialEq, Eq)]
pub enum DrawCmd {
    /// Select the source color for the following fills or text.
    SetColor { red: u8, green: u8, blue: u8 },
    /// Fill the axis-aligned rectangle at (`x`, `y`) of the given size.
    FillRect { x: u32, y: u32, width: u32, height: u32 },
    /// Fill the circle of the given radius centered at (`center_x`, `center_y`).
    FillCircle { center_x: u32, center_y: u32, radius: u32 },
    /// Select an upright monospace font of the given size.
    SetMonospaceFont { size: u32 },
    /// Move the current point to (`x`, `y`).
    MoveTo { x: u32, y: u32 },
    /// Draw one line of text at the current point.
    ShowText { text: String },
    /// Present all buffered drawing to the backing window.
    Flush,
}

/// The fixed demo scene for a surface of the given size: fill the whole
/// surface with a neutral gray, fill a darker fixed square, fill a light
/// fixed circle, then draw one line of fixed text in blue with a fixed
/// monospace font, and flush.
pub open spec fn is_frame_scene(cmds: Seq<DrawCmd>, width: u32, height: u32) -> bool {
    &&& cmds.len() == 11
    &&& cmds[0] == (DrawCmd::SetColor { red: 5, green: 5, blue: 5 })
    &&& cmds[1] == (DrawCmd::FillRect { x: 0, y: 0, width, height })
    &&& cmds[2] == (DrawCmd::SetColor { red: 2, green: 2, blue: 2 })
    &&& cmds[3] == (DrawCmd::FillRect { x: 200, y: 200, width: 100, height: 100 })
    &&& cmds[4] == (DrawCmd::SetColor { red: 9, green: 9, blue: 9 })
    &&& cmds[5] == (DrawCmd::FillCircle { center_x: 200, center_y: 200, radius: 40 })
    &&& cmds[6] == (DrawCmd::SetColor { red: 2, green: 2, blue: 10 })
    &&& cmds[7] == (DrawCmd::SetMonospaceFont { size: 13 })
    &&& cmds[8] == (DrawCmd::MoveTo { x: 10, y: 10 })
    &&& cmds[9] matches DrawCmd::ShowText { text } && text@ == "Hello from Rust VST code!"@
    &&& cmds[10] == (DrawCmd::Flush)
}

/// FrameRenderer: the stateless routine run once per redraw tick. For a fixed
/// size it deterministically yields the fixed demo scene, ready for a drawing
/// backend to execute against the current surface's context.
pub fn frame_scene(width: u32, height: u32) -> (cmds: Vec<DrawCmd>)
    ensures
        is_frame_scene(cmds@, width, height),
{
    let mut cmds: Vec<DrawCmd> = Vec::new();
    cmds.push(DrawCmd::SetColor { red: 5, green: 5, blue: 5 });
    cmds.push(DrawCmd::FillRect { x: 0, y: 0, width, height });
    cmds.push(DrawCmd::SetColor { red: 2, green: 2, blue: 2 });
    cmds.push(DrawCmd::FillRect { x: 200, y: 200, width: 100, height: 100 });
    cmds.push(DrawCmd::SetColor { red: 9, green: 9, blue: 9 });
    cmds.push(DrawCmd::FillCircle { center_x: 200, center_y: 200, radius: 40 });
    cmds.push(DrawCmd::SetColor { red: 2, green: 2, blue: 10 });
    cmds.push(DrawCmd::SetMonospaceFont { size: 13 });
    cmds.push(DrawCmd::MoveTo { x: 10, y: 10 });
    cmds.push(DrawCmd::ShowText { text: String::from_str("Hello from Rust VST code!") });
    cmds.push(DrawCmd::Flush);
    cmds
}

} // verus!
