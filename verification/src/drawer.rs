//! Chart descriptions for the visualization front end.
//!
//! These types describe what the plotting side should show — they do no
//! drawing themselves. A [`ViewField`] owns an optional real-domain chart,
//! an optional frequency-domain chart, and an optional recording of past
//! field states.

use vstd::prelude::*;
use crate::scalar::Complex;

verus! {

/// The character for a single decimal digit.
pub open spec fn digit_char(d: int) -> char {
    if d == 0 {
        '0'
    } else if d == 1 {
        '1'
    } else if d == 2 {
        '2'
    } else if d == 3 {
        '3'
    } else if d == 4 {
        '4'
    } else if d == 5 {
        '5'
    } else if d == 6 {
        '6'
    } else if d == 7 {
        '7'
    } else if d == 8 {
        '8'
    } else {
        '9'
    }
}

/// The decimal digits of `n`, most significant first.
pub open spec fn dec_digits(n: nat) -> Seq<char>
    decreases n,
{
    if n < 10 {
        seq![digit_char(n as int)]
    } else {
        dec_digits(n / 10).push(digit_char((n % 10) as int))
    }
}

/// Appends the character for one decimal digit.
fn push_digit(s: &mut String, d: u64)
    requires
        d < 10,
    ensures
        final(s)@ == old(s)@.push(digit_char(d as int)),
{
    let digit: &str = if d == 0 {
        "0"
    } else if d == 1 {
        "1"
    } else if d == 2 {
        "2"
    } else if d == 3 {
        "3"
    } else if d == 4 {
        "4"
    } else if d == 5 {
        "5"
    } else if d == 6 {
        "6"
    } else if d == 7 {
        "7"
    } else if d == 8 {
        "8"
    } else {
        "9"
    };
    proof {
        reveal_strlit("0");
        reveal_strlit("1");
        reveal_strlit("2");
        reveal_strlit("3");
        reveal_strlit("4");
        reveal_strlit("5");
        reveal_strlit("6");
        reveal_strlit("7");
        reveal_strlit("8");
        reveal_strlit("9");
        assert(digit@ =~= seq![digit_char(d as int)]);
    }
    s.append(digit);
    proof {
        assert(final(s)@ =~= old(s)@.push(digit_char(d as int)));
    }
}

/// Appends the decimal rendering of `n`.
pub fn append_decimal(s: &mut String, n: u64)
    ensures
        final(s)@ == old(s)@ + dec_digits(n as nat),
    decreases n,
{
    if n < 10 {
        push_digit(s, n);
        proof {
            assert(final(s)@ =~= old(s)@ + dec_digits(n as nat));
        }
    } else {
        append_decimal(s, n / 10);
        push_digit(s, n % 10);
        proof {
            assert(final(s)@ =~= old(s)@ + dec_digits(n as nat));
        }
    }
}

/// How a chart draws its series.
#[derive(Clone, Debug, PartialEq, Eq, Structural)]
pub enum PlotKind {
    /// Connected line.
    Line,
    /// Discrete points.
    Points,
}

impl PlotKind {
    /// Applies the front end's kind selection: clicking a kind's label
    /// makes it the current one.
    pub fn controller(&mut self, selected: PlotKind)
        ensures
            *final(self) == selected,
    {
        *self = selected;
    }

    /// The display label of this plot kind.
    pub fn desc(&self) -> (r: &str)
        ensures
            *self == PlotKind::Line ==> r@ == "Line"@,
            *self == PlotKind::Points ==> r@ == "Points"@,
    {
        match self {
            PlotKind::Line => "Line",
            PlotKind::Points => "Points",
        }
    }
}

/// Which representation of the field a chart passes its samples through
/// before drawing.
#[derive(Clone, Debug, PartialEq, Eq, Structural)]
pub enum Process {
    /// Plot the field as it is.
    RealDomain,
    /// Plot the field's spectrum.
    FreqDomain,
}

impl Process {
    /// A frequency-domain processing chain.
    pub fn new_freq_domain() -> (r: Process)
        ensures
            r == Process::FreqDomain,
    {
        Process::FreqDomain
    }
}

impl Default for Process {
    /// Plain real-domain processing.
    fn default() -> (r: Process)
        ensures
            r == Process::RealDomain,
    {
        Process::RealDomain
    }
}

/// The description of one chart window.
#[derive(Clone, Debug)]
pub struct LleChart {
    /// Window title.
    pub name: String,
    /// How the series is drawn.
    pub kind: PlotKind,
    /// Processing applied to the field before drawing.
    pub proc: Process,
    /// Whether the plot bounds follow the data automatically.
    pub smart_bound: bool,
    /// Whether the recorded history is overlaid.
    pub show_history: bool,
}

/// The name of the real-domain chart of the view with the given index.
pub open spec fn r_chart_name(index: nat) -> Seq<char> {
    "real domain "@ + dec_digits(index)
}

/// The name of the frequency-domain chart of the view with the given index.
pub open spec fn f_chart_name(index: nat) -> Seq<char> {
    "freq domain "@ + dec_digits(index)
}

/// A fresh real-domain line chart for the view with the given index.
pub fn default_r_chart(index: usize) -> (r: Option<LleChart>)
    ensures
        r matches Some(c) && c.name@ == r_chart_name(index as nat) && c.kind == PlotKind::Line
            && c.proc == Process::RealDomain && c.smart_bound && !c.show_history,
{
    let mut name = "real domain ".to_owned();
    append_decimal(&mut name, index as u64);
    Some(
        LleChart {
            name,
            kind: PlotKind::Line,
            proc: Process::default(),
            smart_bound: true,
            show_history: false,
        },
    )
}

/// A fresh frequency-domain line chart for the view with the given index.
pub fn default_f_chart(index: usize) -> (r: Option<LleChart>)
    ensures
        r matches Some(c) && c.name@ == f_chart_name(index as nat) && c.kind == PlotKind::Line
            && c.proc == Process::FreqDomain && c.smart_bound && !c.show_history,
{
    let mut name = "freq domain ".to_owned();
    append_decimal(&mut name, index as u64);
    Some(
        LleChart {
            name,
            kind: PlotKind::Line,
            proc: Process::new_freq_domain(),
            smart_bound: true,
            show_history: false,
        },
    )
}

/// A recording of successive field states.
#[derive(Clone, Debug)]
pub struct History {
    /// The recorded states, oldest first.
    pub records: Vec<Vec<Complex>>,
}

impl History {
    /// Starts a recording whose first entry is the given state.
    pub fn new(data: &Vec<Complex>) -> (r: History)
        ensures
            r.records@.len() == 1,
            r.records@[0]@ == data@,
    {
        let mut records: Vec<Vec<Complex>> = Vec::new();
        records.push(clone_state(data));
        History { records }
    }

    /// Appends one more state to the recording.
    pub fn push(&mut self, data: &Vec<Complex>)
        ensures
            final(self).records@.len() == old(self).records@.len() + 1,
            final(self).records@.last()@ == data@,
            forall|i: int|
                0 <= i < old(self).records@.len() ==> final(self).records@[i]
                    == old(self).records@[i],
    {
        self.records.push(clone_state(data));
    }
}

/// Copies a field state value for recording.
fn clone_state(data: &Vec<Complex>) -> (r: Vec<Complex>)
    ensures
        r@ == data@,
{
    let mut r: Vec<Complex> = Vec::new();
    let mut i: usize = 0;
    while i < data.len()
        invariant
            0 <= i <= data@.len(),
            r@ == data@.take(i as int),
        decreases data@.len() - i,
    {
        r.push(data[i]);
        proof {
            assert(r@ =~= data@.take(i + 1));
        }
        i = i + 1;
    }
    proof {
        assert(data@.take(data@.len() as int) =~= data@);
    }
    r
}

/// One view of the simulated field: its optional real-domain and
/// frequency-domain charts and its optional recording of past states.
#[derive(Clone, Debug)]
pub struct ViewField {
    /// The real-domain chart, if shown.
    pub r_chart: Option<LleChart>,
    /// The frequency-domain chart, if shown.
    pub f_chart: Option<LleChart>,
    /// The recording of past states, if one is running.
    pub history: Option<History>,
    /// Which view this is, used to title its chart windows.
    pub index: usize,
}

impl ViewField {
    /// A fresh view: the real-domain chart shown with its defaults, no
    /// frequency-domain chart, no recording.
    pub fn new(index: usize) -> (r: ViewField)
        ensures
            r.r_chart matches Some(c) && c.name@ == r_chart_name(index as nat) && c.kind
                == PlotKind::Line && c.proc == Process::RealDomain && c.smart_bound
                && !c.show_history,
            r.f_chart is None,
            r.history is None,
            r.index == index,
    {
        ViewField { r_chart: default_r_chart(index), f_chart: None, history: None, index }
    }

    /// Applies the front end's chart visibility toggles: a set flag flips
    /// the corresponding chart, recreating it with its defaults when it
    /// comes back.
    pub fn show_which(&mut self, toggle_r: bool, toggle_f: bool)
        ensures
            toggle_r && old(self).r_chart is None ==> (final(self).r_chart matches Some(c)
                && c.name@ == r_chart_name(old(self).index as nat) && c.kind == PlotKind::Line
                && c.proc == Process::RealDomain && c.smart_bound && !c.show_history),
            toggle_r && old(self).r_chart is Some ==> final(self).r_chart is None,
            !toggle_r ==> final(self).r_chart == old(self).r_chart,
            toggle_f && old(self).f_chart is None ==> (final(self).f_chart matches Some(c)
                && c.name@ == f_chart_name(old(self).index as nat) && c.kind == PlotKind::Line
                && c.proc == Process::FreqDomain && c.smart_bound && !c.show_history),
            toggle_f && old(self).f_chart is Some ==> final(self).f_chart is None,
            !toggle_f ==> final(self).f_chart == old(self).f_chart,
            final(self).history == old(self).history,
            final(self).index == old(self).index,
    {
        if toggle_r {
            self.r_chart = match &self.r_chart {
                None => default_r_chart(self.index),
                Some(_) => None,
            };
        }
        if toggle_f {
            self.f_chart = match &self.f_chart {
                None => default_f_chart(self.index),
                Some(_) => None,
            };
        }
    }

    /// Flips the recording on or off, as the front end's toggle does.
    /// Turning it on starts a recording whose first entry is the given
    /// state; turning it off drops the recording and clears the history
    /// overlay of every shown chart, which would otherwise point at it.
    pub fn toggle_record_his(&mut self, data: &Vec<Complex>)
        ensures
            old(self).history is None ==> (final(self).history matches Some(h)
                && h.records@.len() == 1 && h.records@[0]@ == data@ && final(self).r_chart
                == old(self).r_chart && final(self).f_chart == old(self).f_chart),
            old(self).history is Some ==> final(self).history is None
                && (final(self).r_chart matches Some(c) ==> !c.show_history)
                && (final(self).f_chart matches Some(c) ==> !c.show_history),
            final(self).index == old(self).index,
    {
        match &self.history {
            None => {
                self.history = Some(History::new(data));
            },
            Some(_) => {
                self.history = None;
                match &mut self.r_chart {
                    Some(c) => {
                        c.show_history = false;
                    },
                    None => {},
                }
                match &mut self.f_chart {
                    Some(c) => {
                        c.show_history = false;
                    },
                    None => {},
                }
            },
        }
    }

    /// Appends the given state to the recording, if one is running.
    pub fn log_his(&mut self, data: &Vec<Complex>)
        ensures
            old(self).history is None ==> *final(self) == *old(self),
            old(self).history matches Some(h0) ==> final(self).history matches Some(h1)
                && h1.records@.len() == h0.records@.len() + 1 && h1.records@.last()@ == data@
                && (forall|i: int|
                0 <= i < h0.records@.len() ==> h1.records@[i] == h0.records@[i]),
            final(self).r_chart == old(self).r_chart,
            final(self).f_chart == old(self).f_chart,
            final(self).index == old(self).index,
    {
        match &mut self.history {
            Some(s) => s.push(data),
            None => {},
        }
    }
}

} // verus!
