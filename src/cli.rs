//! The command line: its commands and arguments, and the decisions that the
//! tail and chart commands make on the ticks they read.

use vstd::prelude::*;

use crate::text::text_equals;

verus! {

/// Arguments of the tail command.
#[derive(Debug, Clone)]
pub struct TailArgs {
    /// Print only the ticks of this symbol.
    pub symbol: Option<String>,
    /// Stop after printing this many ticks.
    pub limit: Option<usize>,
}

impl TailArgs {
    /// Whether a tick of `symbol` passes the filter.
    pub fn admits(&self, symbol: &str) -> (r: bool)
        ensures
            r == (self.symbol matches Some(wanted) ==> wanted@ == symbol@),
    {
        match &self.symbol {
            Some(wanted) => text_equals(wanted.as_str(), symbol),
            None => true,
        }
    }

    /// Whether the command stops after `printed` ticks.
    pub fn limit_reached(&self, printed: usize) -> (r: bool)
        ensures
            r == (self.limit matches Some(limit) && printed >= limit),
    {
        match self.limit {
            Some(limit) => printed >= limit,
            None => false,
        }
    }
}

/// Arguments of the chart command.
#[derive(Debug, Clone)]
pub struct ChartArgs {
    /// Seconds to collect ticks before plotting.
    pub duration_secs: u64,
    /// Plot only this symbol.
    pub symbol: Option<String>,
    /// Chart width in characters.
    pub width: u32,
    /// Chart height in characters.
    pub height: u32,
}

/// The narrowest chart that is drawn.
pub const MIN_CHART_WIDTH: u32 = 40;

/// The lowest chart that is drawn.
pub const MIN_CHART_HEIGHT: u32 = 10;

/// Why no chart can be drawn.
#[derive(Debug, Clone, Copy, PartialEq, Eq, Structural)]
pub enum ChartError {
    /// No tick was collected.
    NoTicks,
    /// No tick of the requested symbol was collected.
    SymbolNotSeen,
    /// The chosen series has fewer than two points.
    TooFewPoints,
}

impl ChartArgs {
    /// The drawn size: the requested one, raised to the minimum.
    pub fn plot_size(&self) -> (r: (u32, u32))
        ensures
            r.0 == (if self.width > MIN_CHART_WIDTH {
                self.width
            } else {
                MIN_CHART_WIDTH
            }),
            r.1 == (if self.height > MIN_CHART_HEIGHT {
                self.height
            } else {
                MIN_CHART_HEIGHT
            }),
    {
        let w = if self.width > MIN_CHART_WIDTH {
            self.width
        } else {
            MIN_CHART_WIDTH
        };
        let h = if self.height > MIN_CHART_HEIGHT {
            self.height
        } else {
            MIN_CHART_HEIGHT
        };
        (w, h)
    }

    /// Whether a tick of `symbol` is collected.
    pub fn admits(&self, symbol: &str) -> (r: bool)
        ensures
            r == (self.symbol matches Some(wanted) ==> wanted@ == symbol@),
    {
        match &self.symbol {
            Some(wanted) => text_equals(wanted.as_str(), symbol),
            None => true,
        }
    }
}

/// Whether `i` is the series to plot: the first of the requested symbol,
/// or, with no symbol requested, the first of the longest.
pub open spec fn is_pick(requested: Option<String>, series: Seq<(String, usize)>, i: int) -> bool {
    &&& 0 <= i < series.len()
    &&& match requested {
        Some(wanted) => series[i].0@ == wanted@ && forall|j: int|
            0 <= j < i ==> (#[trigger] series[j]).0@ != wanted@,
        None => (forall|j: int| 0 <= j < series.len() ==> (#[trigger] series[j]).1 <= series[i].1)
            && (forall|j: int| 0 <= j < i ==> (#[trigger] series[j]).1 < series[i].1),
    }
}

/// The series to plot among collected ones, each given by its symbol and
/// its number of points. It needs at least two points.
pub fn pick_series(requested: &Option<String>, series: &Vec<(String, usize)>) -> (r: Result<usize, ChartError>)
    ensures
        r == Err::<usize, ChartError>(ChartError::NoTicks) <==> series@.len() == 0,
        r == Err::<usize, ChartError>(ChartError::SymbolNotSeen) <==> series@.len() > 0
            && requested is Some && (forall|i: int|
            0 <= i < series@.len() ==> (#[trigger] series@[i]).0@ != requested->0@),
        r matches Ok(i) ==> is_pick(*requested, series@, i as int) && series@[i as int].1 >= 2,
        r == Err::<usize, ChartError>(ChartError::TooFewPoints) ==> exists|i: int|
            is_pick(*requested, series@, i) && series@[i].1 < 2,
{
    let n = series.len();
    if n == 0 {
        return Err(ChartError::NoTicks);
    }
    let mut chosen: usize = 0;
    match requested {
        Some(wanted) => {
            let mut i: usize = 0;
            let mut found = false;
            while i < n && !found
                invariant
                    n == series@.len(),
                    0 <= i <= n,
                    found ==> i < n && series@[i as int].0@ == wanted@,
                    forall|j: int| 0 <= j < i ==> (#[trigger] series@[j]).0@ != wanted@,
                decreases n - i + (if found {
                    0int
                } else {
                    1int
                }),
            {
                if text_equals(series[i].0.as_str(), wanted.as_str()) {
                    found = true;
                } else {
                    i = i + 1;
                }
            }
            if !found {
                return Err(ChartError::SymbolNotSeen);
            }
            chosen = i;
        },
        None => {
            let mut i: usize = 1;
            while i < n
                invariant
                    n == series@.len(),
                    1 <= i <= n,
                    0 <= chosen < i,
                    forall|j: int| 0 <= j < i ==> (#[trigger] series@[j]).1 <= series@[chosen as int].1,
                    forall|j: int| 0 <= j < chosen ==> (#[trigger] series@[j]).1 < series@[chosen as int].1,
                decreases n - i,
            {
                if series[i].1 > series[chosen].1 {
                    chosen = i;
                }
                i = i + 1;
            }
        },
    }
    proof {
        assert(is_pick(*requested, series@, chosen as int));
    }
    if series[chosen].1 < 2 {
        Err(ChartError::TooFewPoints)
    } else {
        Ok(chosen)
    }
}

/// A subcommand.
#[derive(Debug, Clone)]
pub enum Command {
    /// Run the tick generator and its publishers.
    Run,
    /// Follow the local socket and print ticks.
    Tail(TailArgs),
    /// Collect ticks and draw a price chart.
    Chart(ChartArgs),
}

impl Default for Command {
    fn default() -> (r: Command)
        ensures
            r is Run,
    {
        Command::Run
    }
}

/// The parsed command line.
#[derive(Debug, Clone)]
pub struct Cli {
    pub command: Option<Command>,
}

impl Cli {
    /// The command to run: the one given, or `Run` when none was.
    pub fn command(self) -> (r: Command)
        ensures
            self.command matches Some(c) ==> r == c,
            self.command is None ==> r is Run,
    {
        match self.command {
            Some(c) => c,
            None => Command::Run,
        }
    }
}

} // verus!
