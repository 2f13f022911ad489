//! Screen checks: the pixel probe that a helper script runs on a screen
//! region, how its answer is read, and the staged wait for the game to load.
use vstd::prelude::*;
use vstd::string::*;
use crate::text::{concat2, owned};
use crate::servers::{decimal, decimal_string};

verus! {

// ---------------------------------------------------------------------------
// Reading the probe's answer
// ---------------------------------------------------------------------------

/// The whitespace that JSON allows around a value.
pub open spec fn is_json_space(c: char) -> bool {
    c == ' ' || c == '\n' || c == '\t' || c == '\r'
}

/// `s` without its leading JSON whitespace.
pub open spec fn trim_json_start(s: Seq<char>) -> Seq<char>
    decreases s.len(),
{
    if s.len() > 0 && is_json_space(s[0]) {
        trim_json_start(s.drop_first())
    } else {
        s
    }
}

/// `s` without its trailing JSON whitespace.
pub open spec fn trim_json_end(s: Seq<char>) -> Seq<char>
    decreases s.len(),
{
    if s.len() > 0 && is_json_space(s.last()) {
        trim_json_end(s.drop_last())
    } else {
        s
    }
}

/// The boolean that a JSON text holds: `true` or `false` with nothing but
/// whitespace around it; no boolean for any other text.
pub open spec fn json_bool_of(s: Seq<char>) -> Option<bool> {
    let t = trim_json_end(trim_json_start(s));
    if t == "true"@ {
        Some(true)
    } else if t == "false"@ {
        Some(false)
    } else {
        None
    }
}

/// The error type of `serde_json`.
#[verifier::external_type_specification]
#[verifier::external_body]
pub struct ExJsonError(serde_json::Error);

/// `serde_json::from_str::<bool>`. Its source skips JSON whitespace, reads
/// the literal `true` or `false`, and then accepts nothing but whitespace up
/// to the end of the text; any other text is an error.
#[verifier::external_body]
fn parse_json_bool(text: &str) -> (r: Result<bool, serde_json::Error>)
    ensures
        match r {
            Ok(b) => json_bool_of(text@) == Some(b),
            Err(_) => json_bool_of(text@) is None,
        },
{
    serde_json::from_str::<bool>(text)
}

/// Whether the probe script found the colour: its output reads as the JSON
/// value `true`. Output that is not a JSON boolean counts as not found.
pub fn pixel_verdict(output: &str) -> (r: bool)
    ensures
        r == (json_bool_of(output@) == Some(true)),
{
    match parse_json_bool(output) {
        Ok(found) => found,
        Err(_) => false,
    }
}

// ---------------------------------------------------------------------------
// The probe's command line
// ---------------------------------------------------------------------------

/// A signed integer written in decimal, with a minus sign when negative.
pub open spec fn signed_decimal(n: int) -> Seq<char> {
    if n < 0 {
        "-"@ + decimal((-n) as nat)
    } else {
        decimal(n as nat)
    }
}

/// `n` written in decimal.
pub fn signed_decimal_string(n: i64) -> (r: String)
    ensures
        r@ == signed_decimal(n as int),
{
    if n < 0 {
        let magnitude: i128 = -(n as i128);
        let digits = decimal_string(magnitude as u64);
        concat2("-", digits.as_str())
    } else {
        decimal_string(n as u64)
    }
}

/// The colour the probe looks for, as the script takes it: `red,green,blue`.
pub fn detect_value(red: i32, green: i32, blue: i32) -> (r: String)
    ensures
        r@ == signed_decimal(red as int) + ","@ + signed_decimal(green as int) + ","@
            + signed_decimal(blue as int),
{
    let mut r = signed_decimal_string(red as i64);
    r.append(",");
    let g = signed_decimal_string(green as i64);
    r.append(g.as_str());
    r.append(",");
    let b = signed_decimal_string(blue as i64);
    r.append(b.as_str());
    r
}

/// The arguments of the shell command that runs the probe script on the
/// region `left, top, width, height` of the screen for the given colour.
pub open spec fn probe_args(
    left: i32,
    top: i32,
    width: i32,
    height: i32,
    red: i32,
    green: i32,
    blue: i32,
) -> Seq<Seq<char>> {
    seq![
        "/C"@,
        "poetry"@,
        "run"@,
        "python"@,
        "cv_functions.py"@,
        "--func"@,
        "detect_pixels"@,
        "--left"@,
        signed_decimal(left as int),
        "--top"@,
        signed_decimal(top as int),
        "--width"@,
        signed_decimal(width as int),
        "--height"@,
        signed_decimal(height as int),
        "--detect_value"@,
        signed_decimal(red as int) + ","@ + signed_decimal(green as int) + ","@ + signed_decimal(
            blue as int,
        ),
    ]
}

/// The command-line arguments of one pixel probe.
pub fn pixel_probe_args(
    left: i32,
    top: i32,
    width: i32,
    height: i32,
    red: i32,
    green: i32,
    blue: i32,
) -> (r: Vec<String>)
    ensures
        r.deep_view() == probe_args(left, top, width, height, red, green, blue),
{
    let mut r: Vec<String> = Vec::new();
    r.push(owned("/C"));
    r.push(owned("poetry"));
    r.push(owned("run"));
    r.push(owned("python"));
    r.push(owned("cv_functions.py"));
    r.push(owned("--func"));
    r.push(owned("detect_pixels"));
    r.push(owned("--left"));
    r.push(signed_decimal_string(left as i64));
    r.push(owned("--top"));
    r.push(signed_decimal_string(top as i64));
    r.push(owned("--width"));
    r.push(signed_decimal_string(width as i64));
    r.push(owned("--height"));
    r.push(signed_decimal_string(height as i64));
    r.push(owned("--detect_value"));
    r.push(detect_value(red, green, blue));
    assert(r.deep_view() =~= probe_args(left, top, width, height, red, green, blue));
    r
}

// ---------------------------------------------------------------------------
// Waiting for the game to load
// ---------------------------------------------------------------------------

/// The checks that a fresh game window passes, in this order, before the
/// bot treats the game as loaded.
#[derive(Clone, Copy, Debug, PartialEq, Eq, Structural)]
pub enum LoadStage {
    /// The game window is in front.
    WindowActive,
    /// Hovering the backpack lights its button up.
    BackpackHover,
    /// The navigation bar is shown.
    Navbar,
    /// The navigation bar hides again once the mouse leaves it.
    NavbarHidden,
}

/// The longest wait for one stage, in seconds.
pub const MAX_STAGE_SECONDS: u32 = 120;

/// The pause between two probes of a stage, in seconds.
pub const PROBE_PAUSE_SECONDS: u32 = 2;

/// How often a stage is probed before the wait is given up.
pub const PROBES_PER_STAGE: u32 = MAX_STAGE_SECONDS / PROBE_PAUSE_SECONDS;

/// The stage after `s`; the last stage has none.
pub open spec fn next_stage(s: LoadStage) -> Option<LoadStage> {
    match s {
        LoadStage::WindowActive => Some(LoadStage::BackpackHover),
        LoadStage::BackpackHover => Some(LoadStage::Navbar),
        LoadStage::Navbar => Some(LoadStage::NavbarHidden),
        LoadStage::NavbarHidden => None,
    }
}

/// The pixel test of a stage: the screen region, the colour, and whether the
/// stage passes when the colour is found (`true`) or when it is not.
#[derive(Clone, Copy, Debug, PartialEq, Eq, Structural)]
pub struct PixelProbe {
    pub left: i32,
    pub top: i32,
    pub width: i32,
    pub height: i32,
    pub red: i32,
    pub green: i32,
    pub blue: i32,
    pub passes_when_found: bool,
}

/// The pixel test of each stage; the first stage is a window check instead.
pub open spec fn stage_probe_spec(s: LoadStage) -> Option<PixelProbe> {
    match s {
        LoadStage::WindowActive => None,
        LoadStage::BackpackHover => Some(PixelProbe {
            left: 691, top: 669, width: 9, height: 5,
            red: 179, green: 179, blue: 179, passes_when_found: true,
        }),
        LoadStage::Navbar => Some(PixelProbe {
            left: 691, top: 669, width: 9, height: 5,
            red: 255, green: 255, blue: 255, passes_when_found: true,
        }),
        LoadStage::NavbarHidden => Some(PixelProbe {
            left: 691, top: 669, width: 9, height: 5,
            red: 255, green: 255, blue: 255, passes_when_found: false,
        }),
    }
}

/// The pixel test of stage `s`.
pub fn stage_probe(s: LoadStage) -> (r: Option<PixelProbe>)
    ensures
        r == stage_probe_spec(s),
{
    match s {
        LoadStage::WindowActive => None,
        LoadStage::BackpackHover => Some(PixelProbe {
            left: 691, top: 669, width: 9, height: 5,
            red: 179, green: 179, blue: 179, passes_when_found: true,
        }),
        LoadStage::Navbar => Some(PixelProbe {
            left: 691, top: 669, width: 9, height: 5,
            red: 255, green: 255, blue: 255, passes_when_found: true,
        }),
        LoadStage::NavbarHidden => Some(PixelProbe {
            left: 691, top: 669, width: 9, height: 5,
            red: 255, green: 255, blue: 255, passes_when_found: false,
        }),
    }
}

/// Whether a stage passed, given whether its probe found the colour.
pub fn probe_passed(p: PixelProbe, found: bool) -> (r: bool)
    ensures
        r == (found == p.passes_when_found),
{
    found == p.passes_when_found
}

/// What the caller does next while waiting for the game to load.
#[derive(Clone, Copy, Debug, PartialEq, Eq, Structural)]
pub enum LoadAction {
    /// Probe `stage`, first pausing `PROBE_PAUSE_SECONDS` if `after_pause`.
    Probe { stage: LoadStage, after_pause: bool },
    /// Stop waiting, first pausing if `after_pause`: the game has loaded, or
    /// a stage was given up.
    Done { loaded: bool, after_pause: bool },
}

/// The wait for the game to load: the stage being probed and how many of
/// its probes have failed so far.
#[derive(Clone, Copy, Debug, PartialEq, Eq, Structural)]
pub struct LoadCheck {
    pub stage: LoadStage,
    pub failures: u32,
}

/// One step of the wait on the result of a probe: the state after it and
/// what the caller does next.
pub open spec fn load_step(c: LoadCheck, passed: bool) -> (LoadCheck, LoadAction) {
    if passed {
        match next_stage(c.stage) {
            Some(n) => (
                LoadCheck { stage: n, failures: 0 },
                LoadAction::Probe { stage: n, after_pause: false },
            ),
            None => (c, LoadAction::Done { loaded: true, after_pause: false }),
        }
    } else if c.failures + 1 < PROBES_PER_STAGE {
        (
            LoadCheck { stage: c.stage, failures: (c.failures + 1) as u32 },
            LoadAction::Probe { stage: c.stage, after_pause: true },
        )
    } else {
        (c, LoadAction::Done { loaded: false, after_pause: true })
    }
}

/// The outcome of feeding the probe results `events`, in order, to the wait
/// from `c`: whether the game loaded once the wait ends, or nothing while it
/// has not ended.
pub open spec fn load_outcome(c: LoadCheck, events: Seq<bool>) -> Option<bool>
    decreases events.len(),
{
    if events.len() == 0 {
        None
    } else {
        let (n, a) = load_step(c, events[0]);
        match a {
            LoadAction::Done { loaded, .. } => Some(loaded),
            LoadAction::Probe { .. } => load_outcome(n, events.drop_first()),
        }
    }
}

/// The number of stages after `s`.
pub open spec fn stages_after(s: LoadStage) -> nat {
    match s {
        LoadStage::WindowActive => 3,
        LoadStage::BackpackHover => 2,
        LoadStage::Navbar => 1,
        LoadStage::NavbarHidden => 0,
    }
}

/// The most probes that the wait from `c` can still make.
pub open spec fn probes_left(c: LoadCheck) -> nat {
    (stages_after(c.stage) * PROBES_PER_STAGE + (PROBES_PER_STAGE - c.failures)) as nat
}

/// The wait always ends: from a well-formed state it has ended once it has
/// been given `probes_left` probe results, so a whole wait makes at most
/// four stages' worth of probes.
pub proof fn lemma_wait_ends(c: LoadCheck, events: Seq<bool>)
    requires
        c.wf(),
        events.len() >= probes_left(c),
    ensures
        load_outcome(c, events) is Some,
    decreases events.len(),
{
    let (n, a) = load_step(c, events[0]);
    match a {
        LoadAction::Done { .. } => {},
        LoadAction::Probe { .. } => {
            lemma_wait_ends(n, events.drop_first());
        },
    }
}

/// The number of passed probes among `events`.
pub open spec fn passes(events: Seq<bool>) -> nat
    decreases events.len(),
{
    if events.len() == 0 {
        0
    } else {
        (if events[0] { 1nat } else { 0nat }) + passes(events.drop_first())
    }
}

/// The game counts as loaded only once every remaining stage has passed: a
/// wait from `c` that ends loaded has seen at least one passed probe for
/// each stage from the current one to the last.
pub proof fn lemma_loaded_needs_every_stage(c: LoadCheck, events: Seq<bool>)
    requires
        c.wf(),
        load_outcome(c, events) == Some(true),
    ensures
        passes(events) >= stages_after(c.stage) + 1,
    decreases events.len(),
{
    let (n, a) = load_step(c, events[0]);
    match a {
        LoadAction::Done { .. } => {},
        LoadAction::Probe { .. } => {
            lemma_loaded_needs_every_stage(n, events.drop_first());
        },
    }
}

impl LoadCheck {
    /// No stage has used up its probes.
    pub open spec fn wf(self) -> bool {
        self.failures < PROBES_PER_STAGE
    }

    /// The start of the wait; the first action probes the window at once.
    pub fn new() -> (r: (LoadCheck, LoadAction))
        ensures
            r.0 == (LoadCheck { stage: LoadStage::WindowActive, failures: 0 }),
            r.0.wf(),
            r.1 == (LoadAction::Probe { stage: LoadStage::WindowActive, after_pause: false }),
    {
        (
            LoadCheck { stage: LoadStage::WindowActive, failures: 0 },
            LoadAction::Probe { stage: LoadStage::WindowActive, after_pause: false },
        )
    }

    /// Takes the result of the last probe of the current stage: a pass moves
    /// on to the next stage at once (or ends the wait, loaded, after the
    /// last); a failure pauses and probes again, until the stage's
    /// `PROBES_PER_STAGE`-th failure, which pauses and ends the wait unloaded.
    pub fn step(&mut self, passed: bool) -> (r: LoadAction)
        requires
            old(self).wf(),
        ensures
            final(self).wf(),
            (*final(self), r) == load_step(*old(self), passed),
            passed && next_stage(old(self).stage) is None ==> r == (LoadAction::Done {
                loaded: true,
                after_pause: false,
            }) && *final(self) == *old(self),
            passed && next_stage(old(self).stage) is Some ==> r == (LoadAction::Probe {
                stage: next_stage(old(self).stage)->0,
                after_pause: false,
            }) && *final(self) == (LoadCheck {
                stage: next_stage(old(self).stage)->0,
                failures: 0,
            }),
            !passed && old(self).failures + 1 < PROBES_PER_STAGE ==> r == (LoadAction::Probe {
                stage: old(self).stage,
                after_pause: true,
            }) && *final(self) == (LoadCheck {
                stage: old(self).stage,
                failures: (old(self).failures + 1) as u32,
            }),
            !passed && old(self).failures + 1 == PROBES_PER_STAGE ==> r == (LoadAction::Done {
                loaded: false,
                after_pause: true,
            }) && *final(self) == *old(self),
    {
        if passed {
            match self.stage {
                LoadStage::WindowActive => {
                    self.stage = LoadStage::BackpackHover;
                    self.failures = 0;
                    LoadAction::Probe { stage: LoadStage::BackpackHover, after_pause: false }
                },
                LoadStage::BackpackHover => {
                    self.stage = LoadStage::Navbar;
                    self.failures = 0;
                    LoadAction::Probe { stage: LoadStage::Navbar, after_pause: false }
                },
                LoadStage::Navbar => {
                    self.stage = LoadStage::NavbarHidden;
                    self.failures = 0;
                    LoadAction::Probe { stage: LoadStage::NavbarHidden, after_pause: false }
                },
                LoadStage::NavbarHidden => LoadAction::Done { loaded: true, after_pause: false },
            }
        } else if self.failures + 1 < PROBES_PER_STAGE {
            self.failures = self.failures + 1;
            LoadAction::Probe { stage: self.stage, after_pause: true }
        } else {
            LoadAction::Done { loaded: false, after_pause: true }
        }
    }
}

} // verus!

verus! {

/// Each pixel stage passes when its colour is found, except the last one,
/// which passes when the navigation bar's colour is no longer found: the
/// navigation bar stage and the hidden-bar stage look at the same region
/// for the same colour with opposite verdicts. Only the window stage has
/// no pixel test.
pub proof fn lemma_stage_verdicts(s: LoadStage, found: bool)
    ensures
        stage_probe_spec(s) is None <==> s == LoadStage::WindowActive,
        stage_probe_spec(s) matches Some(p) ==> ((found == p.passes_when_found) == if s
            == LoadStage::NavbarHidden {
            !found
        } else {
            found
        }),
        ({
            let n = stage_probe_spec(LoadStage::Navbar)->0;
            let h = stage_probe_spec(LoadStage::NavbarHidden)->0;
            &&& n.left == h.left && n.top == h.top && n.width == h.width && n.height == h.height
            &&& n.red == h.red && n.green == h.green && n.blue == h.blue
            &&& n.passes_when_found != h.passes_when_found
        }),
{
}

} // verus!
