//! The script bridge: the fixed set of host functions that a frame's script
//! may call.
//!
//! A script can ask for the frame rate and the size of the viewport, and it
//! can ask for text to be drawn. Drawing is deferred: `text` puts the request
//! in a queue that the caller empties when it renders. The bridge holds
//! nothing of the physics world or of the carry state.

use vstd::prelude::*;
use crate::layout::Viewport;

verus! {

/// A colour, eight bits to the channel.
#[derive(Clone, Copy, Debug, PartialEq, Eq, Structural)]
pub struct Color {
    pub r: u8,
    pub g: u8,
    pub b: u8,
    pub a: u8,
}

impl Color {
    /// Opaque black, the one colour that scripts are given by name.
    pub fn black() -> (c: Color)
        ensures
            c == (Color { r: 0, g: 0, b: 0, a: 255 }),
    {
        Color { r: 0, g: 0, b: 0, a: 255 }
    }
}

/// A request to draw text.
#[derive(Debug, PartialEq, Eq)]
pub struct TextDraw {
    pub content: String,
    pub x: i64,
    pub y: i64,
    pub size: i64,
    pub color: Color,
}

/// A text request as a mathematical value.
pub struct TextDrawView {
    pub content: Seq<char>,
    pub x: i64,
    pub y: i64,
    pub size: i64,
    pub color: Color,
}

impl View for TextDraw {
    type V = TextDrawView;

    open spec fn view(&self) -> TextDrawView {
        TextDrawView {
            content: self.content@,
            x: self.x,
            y: self.y,
            size: self.size,
            color: self.color,
        }
    }
}

/// The host functions, one variant each.
#[derive(Clone, Copy, Debug, PartialEq, Eq, Structural)]
pub enum HostFunction {
    Text,
    Fps,
    ScreenWidth,
    ScreenHeight,
}

impl HostFunction {
    /// The name under which a script calls the function.
    pub open spec fn script_name(self) -> Seq<char> {
        match self {
            HostFunction::Text => "text"@,
            HostFunction::Fps => "fps"@,
            HostFunction::ScreenWidth => "screen_width"@,
            HostFunction::ScreenHeight => "screen_height"@,
        }
    }

    /// How many arguments the function takes.
    pub open spec fn parameter_count(self) -> nat {
        match self {
            HostFunction::Text => 5,
            _ => 0,
        }
    }

    pub fn name(self) -> (n: &'static str)
        ensures
            n@ == self.script_name(),
    {
        match self {
            HostFunction::Text => "text",
            HostFunction::Fps => "fps",
            HostFunction::ScreenWidth => "screen_width",
            HostFunction::ScreenHeight => "screen_height",
        }
    }

    pub fn arity(self) -> (n: usize)
        ensures
            n == self.parameter_count(),
    {
        match self {
            HostFunction::Text => 5,
            _ => 0,
        }
    }

    /// Every host function, in the order in which they are registered.
    pub fn all() -> (fs: Vec<HostFunction>)
        ensures
            fs@ == seq![
                HostFunction::Text,
                HostFunction::Fps,
                HostFunction::ScreenWidth,
                HostFunction::ScreenHeight,
            ],
    {
        let mut fs: Vec<HostFunction> = Vec::new();
        fs.push(HostFunction::Text);
        fs.push(HostFunction::Fps);
        fs.push(HostFunction::ScreenWidth);
        fs.push(HostFunction::ScreenHeight);
        assert(fs@ =~= seq![
            HostFunction::Text,
            HostFunction::Fps,
            HostFunction::ScreenWidth,
            HostFunction::ScreenHeight,
        ]);
        fs
    }

    /// The host function of that name, if there is one.
    pub fn lookup(name: &str) -> (found: Option<HostFunction>)
        ensures
            match found {
                Some(f) => f.script_name() == name@,
                None => forall|f: HostFunction| f.script_name() != name@,
            },
    {
        let wanted = name.to_owned();
        if wanted == "text".to_owned() {
            Some(HostFunction::Text)
        } else if wanted == "fps".to_owned() {
            Some(HostFunction::Fps)
        } else if wanted == "screen_width".to_owned() {
            Some(HostFunction::ScreenWidth)
        } else if wanted == "screen_height".to_owned() {
            Some(HostFunction::ScreenHeight)
        } else {
            None
        }
    }
}

/// No two host functions share a name.
pub proof fn lemma_names_distinct(f: HostFunction, g: HostFunction)
    requires
        f != g,
    ensures
        f.script_name() != g.script_name(),
{
    reveal_strlit("text");
    reveal_strlit("fps");
    reveal_strlit("screen_width");
    reveal_strlit("screen_height");
    assert(f.script_name().len() != g.script_name().len());
}

/// One call from a script, with its arguments.
#[derive(Debug, PartialEq, Eq)]
pub enum HostCall {
    Text(TextDraw),
    Fps,
    ScreenWidth,
    ScreenHeight,
}

impl HostCall {
    /// The function that the call is for.
    pub open spec fn function_spec(self) -> HostFunction {
        match self {
            HostCall::Text(_) => HostFunction::Text,
            HostCall::Fps => HostFunction::Fps,
            HostCall::ScreenWidth => HostFunction::ScreenWidth,
            HostCall::ScreenHeight => HostFunction::ScreenHeight,
        }
    }

    pub fn function(&self) -> (f: HostFunction)
        ensures
            f == self.function_spec(),
    {
        match self {
            HostCall::Text(_) => HostFunction::Text,
            HostCall::Fps => HostFunction::Fps,
            HostCall::ScreenWidth => HostFunction::ScreenWidth,
            HostCall::ScreenHeight => HostFunction::ScreenHeight,
        }
    }
}

/// What a host function hands back to the script.
#[derive(Clone, Copy, Debug, PartialEq, Eq, Structural)]
pub enum HostReply {
    Nothing,
    Number(i64),
}

/// What the bridge holds, as a mathematical value.
pub struct BridgeState {
    pub viewport: Viewport,
    pub fps: i32,
    pub queue: Seq<TextDrawView>,
}

impl BridgeState {
    /// What the call hands back.
    pub open spec fn reply_to(self, call: HostCall) -> HostReply {
        match call {
            HostCall::Text(_) => HostReply::Nothing,
            HostCall::Fps => HostReply::Number(self.fps as i64),
            HostCall::ScreenWidth => HostReply::Number(self.viewport.width),
            HostCall::ScreenHeight => HostReply::Number(self.viewport.height),
        }
    }

    /// The bridge after the call: a text request joins the end of the queue,
    /// the queries change nothing.
    pub open spec fn after(self, call: HostCall) -> BridgeState {
        match call {
            HostCall::Text(draw) => BridgeState { queue: self.queue.push(draw@), ..self },
            _ => self,
        }
    }
}

/// The state that scripts can reach: timing, viewport and the queue of text
/// requests.
#[derive(Debug)]
pub struct ScriptBridge {
    viewport: Viewport,
    fps: i32,
    queue: Vec<TextDraw>,
}

impl View for ScriptBridge {
    type V = BridgeState;

    closed spec fn view(&self) -> BridgeState {
        BridgeState {
            viewport: self.viewport,
            fps: self.fps,
            queue: Seq::new(self.queue@.len(), |i: int| self.queue@[i]@),
        }
    }
}

impl ScriptBridge {
    /// A bridge with an empty queue.
    pub fn new(viewport: Viewport, fps: i32) -> (bridge: ScriptBridge)
        ensures
            bridge@ == (BridgeState { viewport, fps, queue: Seq::empty() }),
    {
        let bridge = ScriptBridge { viewport, fps, queue: Vec::new() };
        assert(bridge@.queue =~= Seq::empty());
        bridge
    }

    /// Brings timing and viewport up to date for a new frame. The queue is
    /// left as it is.
    pub fn refresh(&mut self, viewport: Viewport, fps: i32)
        ensures
            final(self)@ == (BridgeState { viewport, fps, queue: old(self)@.queue }),
    {
        self.viewport = viewport;
        self.fps = fps;
    }

    /// Host function `fps`.
    pub fn fps(&self) -> (n: i32)
        ensures
            n == self@.fps,
    {
        self.fps
    }

    /// Host function `screen_width`.
    pub fn screen_width(&self) -> (w: i64)
        ensures
            w == self@.viewport.width,
    {
        self.viewport.width
    }

    /// Host function `screen_height`.
    pub fn screen_height(&self) -> (h: i64)
        ensures
            h == self@.viewport.height,
    {
        self.viewport.height
    }

    /// Host function `text`: puts the request at the end of the queue.
    pub fn text(&mut self, content: String, x: i64, y: i64, size: i64, color: Color)
        ensures
            final(self)@ == (BridgeState {
                queue: old(self)@.queue.push(
                    TextDrawView { content: content@, x, y, size, color },
                ),
                ..old(self)@
            }),
    {
        self.queue.push(TextDraw { content, x, y, size, color });
        assert(self@.queue =~= old(self)@.queue.push(
            TextDrawView { content: content@, x, y, size, color },
        ));
    }

    /// How many requests wait in the queue.
    pub fn pending(&self) -> (n: usize)
        ensures
            n == self@.queue.len(),
    {
        self.queue.len()
    }

    /// Performs one call of a script.
    pub fn call(&mut self, call: HostCall) -> (reply: HostReply)
        ensures
            reply == old(self)@.reply_to(call),
            final(self)@ == old(self)@.after(call),
    {
        match call {
            HostCall::Text(draw) => {
                let ghost request = draw@;
                self.queue.push(draw);
                assert(self@.queue =~= old(self)@.queue.push(request));
                HostReply::Nothing
            },
            HostCall::Fps => HostReply::Number(self.fps as i64),
            HostCall::ScreenWidth => HostReply::Number(self.viewport.width),
            HostCall::ScreenHeight => HostReply::Number(self.viewport.height),
        }
    }

    /// Empties the queue and hands out its requests, oldest first.
    pub fn take_draws(&mut self) -> (draws: Vec<TextDraw>)
        ensures
            draws@.len() == old(self)@.queue.len(),
            forall|i: int| 0 <= i < draws@.len() ==> (#[trigger] draws@[i])@ == old(self)@.queue[i],
            final(self)@ == (BridgeState { queue: Seq::empty(), ..old(self)@ }),
    {
        let mut draws: Vec<TextDraw> = Vec::new();
        std::mem::swap(&mut self.queue, &mut draws);
        assert(self@.queue =~= Seq::empty());
        draws
    }
}

/// The queries leave the bridge as it was, and a text request changes the
/// queue only: it grows by that request, at its end.
pub proof fn lemma_calls_touch_queue_only(b: BridgeState, call: HostCall)
    ensures
        b.after(call).viewport == b.viewport,
        b.after(call).fps == b.fps,
        call !is Text ==> b.after(call) == b,
        call matches HostCall::Text(draw) ==> b.after(call).queue.len() == b.queue.len() + 1
            && b.after(call).queue.last() == draw@ && b.after(call).queue.drop_last() == b.queue,
{
    match call {
        HostCall::Text(draw) => {
            assert(b.after(call).queue.drop_last() =~= b.queue);
        },
        _ => {},
    }
}

} // verus!
