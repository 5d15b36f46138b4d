//! The dashboard: the compute history as a line of bars.

use vstd::prelude::*;
use std::collections::VecDeque;

verus! {

/// The dashboard pane. It holds no state of its own.
#[derive(Debug, Clone, Copy, PartialEq, Eq)]
pub struct Dashboard;

/// The number of bar heights above the empty bar.
pub const BAR_STEPS: u64 = 8;

/// The bar of a height from 0, empty, to 8, full.
pub open spec fn spec_bar(height: int) -> char {
    if height <= 0 {
        ' '
    } else if height == 1 {
        '\u{2581}'
    } else if height == 2 {
        '\u{2582}'
    } else if height == 3 {
        '\u{2583}'
    } else if height == 4 {
        '\u{2584}'
    } else if height == 5 {
        '\u{2585}'
    } else if height == 6 {
        '\u{2586}'
    } else if height == 7 {
        '\u{2587}'
    } else {
        '\u{2588}'
    }
}

/// The smallest of the samples from `from` on; the largest sample there
/// can be where there is none.
pub open spec fn spec_lowest(samples: Seq<u64>, from: int) -> u64
    decreases samples.len() - from,
{
    if from < 0 || from >= samples.len() {
        u64::MAX
    } else {
        let rest = spec_lowest(samples, from + 1);
        if samples[from] < rest {
            samples[from]
        } else {
            rest
        }
    }
}

/// The largest of the samples from `from` on; zero where there is none.
pub open spec fn spec_highest(samples: Seq<u64>, from: int) -> u64
    decreases samples.len() - from,
{
    if from < 0 || from >= samples.len() {
        0
    } else {
        let rest = spec_highest(samples, from + 1);
        if samples[from] > rest {
            samples[from]
        } else {
            rest
        }
    }
}

/// The position of the first of the last `width` samples.
pub open spec fn spec_window_start(samples: Seq<u64>, width: usize) -> int {
    if samples.len() > width {
        samples.len() - width
    } else {
        0
    }
}

/// The spread of the samples shown, at least one.
pub open spec fn spec_spread(samples: Seq<u64>, width: usize) -> int {
    let from = spec_window_start(samples, width);
    let spread = spec_highest(samples, from) - spec_lowest(samples, from);
    if spread < 1 {
        1
    } else {
        spread
    }
}

/// The height of the bar of one sample: its place between the lowest and
/// the highest sample shown, in eighths, rounded down.
pub open spec fn spec_bar_height(sample: u64, lowest: u64, spread: int) -> int {
    ((sample - lowest) * BAR_STEPS as int) / spread
}

/// The line of bars for the last `width` samples: one bar per sample, the
/// lowest sample empty, the highest full.
pub open spec fn spec_sparkline(samples: Seq<u64>, width: usize) -> Seq<char> {
    let from = spec_window_start(samples, width);
    Seq::new(
        (samples.len() - from) as nat,
        |i: int|
            spec_bar(
                spec_bar_height(
                    samples[from + i],
                    spec_lowest(samples, from),
                    spec_spread(samples, width),
                ),
            ),
    )
}

/// The lowest and the highest sample bound every sample between them.
pub proof fn lemma_extremes_bound(samples: Seq<u64>, from: int, i: int)
    requires
        0 <= from <= i < samples.len(),
    ensures
        spec_lowest(samples, from) <= samples[i] <= spec_highest(samples, from),
    decreases i - from,
{
    if from < i {
        lemma_extremes_bound(samples, from + 1, i);
    }
}

/// The bar of a height from 0 to 8.
pub fn bar(height: u64) -> (c: char)
    ensures
        c == spec_bar(height as int),
{
    if height == 0 {
        ' '
    } else if height == 1 {
        '\u{2581}'
    } else if height == 2 {
        '\u{2582}'
    } else if height == 3 {
        '\u{2583}'
    } else if height == 4 {
        '\u{2584}'
    } else if height == 5 {
        '\u{2585}'
    } else if height == 6 {
        '\u{2586}'
    } else if height == 7 {
        '\u{2587}'
    } else {
        '\u{2588}'
    }
}

/// The compute history as a line of bars, for the last `width` samples.
pub fn sparkline_text(data: &VecDeque<u64>, width: usize) -> (line: String)
    ensures
        line@ == spec_sparkline(data@, width),
{
    let len = data.len();
    let from: usize = if len > width {
        len - width
    } else {
        0
    };
    let mut lowest: u64 = u64::MAX;
    let mut highest: u64 = 0;
    let mut k: usize = len;
    while k > from
        invariant
            from <= k <= len,
            len == data@.len(),
            lowest == spec_lowest(data@, k as int),
            highest == spec_highest(data@, k as int),
        decreases k,
    {
        k = k - 1;
        let sample = data[k];
        if sample < lowest {
            lowest = sample;
        }
        if sample > highest {
            highest = sample;
        }
    }
    let spread: u64 = if highest > lowest {
        highest - lowest
    } else {
        1
    };
    let mut line = String::new();
    let mut i: usize = from;
    while i < len
        invariant
            from <= i <= len,
            len == data@.len(),
            from as int == spec_window_start(data@, width),
            lowest == spec_lowest(data@, from as int),
            highest == spec_highest(data@, from as int),
            spread as int == spec_spread(data@, width),
            line@ == spec_sparkline(data@, width).take(i - from),
        decreases len - i,
    {
        let sample = data[i];
        proof {
            lemma_extremes_bound(data@, from as int, i as int);
        }
        let offset: u128 = (sample - lowest) as u128;
        let height: u128 = offset * (BAR_STEPS as u128) / (spread as u128);
        assert(height <= 8) by (nonlinear_arith)
            requires
                height == (offset * 8) / (spread as int),
                spread >= 1,
                offset <= spread,
        ;
        assert(height as int == spec_bar_height(sample, lowest, spread as int));
        line.push(bar(height as u64));
        proof {
            assert(line@ =~= spec_sparkline(data@, width).take(i + 1 - from));
        }
        i = i + 1;
    }
    proof {
        assert(line@ =~= spec_sparkline(data@, width));
    }
    line
}

impl Dashboard {
    /// The dashboard pane.
    pub fn new() -> (dashboard: Dashboard)
        ensures
            dashboard == Dashboard,
    {
        Dashboard
    }
}

} // verus!
