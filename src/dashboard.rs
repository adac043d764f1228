//! The dashboard's readings and what one frame shows in each cell.
//!
//! Loads arrive in hundredths of a percent, which is also their ratio in
//! parts per `FULL_SCALE`. The core count used for layout may be set apart
//! from the number of loads a sample holds, so a cell shows a core only
//! where both bounds admit its index; every other cell of the core rows
//! shows the aggregate load.
use vstd::prelude::*;
use crate::grid::{layout, lemma_rows_bounds, planned, row_count, rows_for, ConfigError, GridSpec};
use crate::ratio::{clamp_ratio, clamped, FULL_SCALE};
use vstd::string::StringExecFns;

verus! {

/// The readings and settings that a frame is drawn from.
pub struct App {
    min_width: usize,
    cpu_loads: Vec<i64>,
    cpu_total: i64,
    n_logical: usize,
    n_physical: usize,
    display_temperature: bool,
}

/// The content of an `App`.
pub struct AppView {
    pub min_width: nat,
    pub loads: Seq<i64>,
    pub total: i64,
    pub n_logical: nat,
    pub n_physical: nat,
    pub display_temperature: bool,
}

impl View for App {
    type V = AppView;

    closed spec fn view(&self) -> AppView {
        AppView {
            min_width: self.min_width as nat,
            loads: self.cpu_loads@,
            total: self.cpu_total,
            n_logical: self.n_logical as nat,
            n_physical: self.n_physical as nat,
            display_temperature: self.display_temperature,
        }
    }
}

/// What one cell of a frame shows.
#[derive(Clone, Copy, Debug, PartialEq, Eq, Structural)]
pub enum Cell {
    /// The load of core `index`, as a ratio in parts per `FULL_SCALE`.
    Core { index: usize, ratio: u32 },
    /// The whole machine's load, as a ratio in parts per `FULL_SCALE`.
    Aggregate { ratio: u32 },
    /// The full-width temperature strip; no reading is offered yet.
    Temperature,
}

/// The number of cores that the layout counts: the override where one is
/// given, else the detected count.
pub open spec fn effective_core_count(override_count: nat, detected: nat) -> nat {
    if override_count > 0 {
        override_count
    } else {
        detected
    }
}

/// The ratio shown for core `cpu_id`: its clamped load, or zero where the
/// sample holds no load for it.
pub open spec fn core_ratio(v: AppView, cpu_id: int) -> int {
    if 0 <= cpu_id < v.loads.len() {
        clamped(v.loads[cpu_id] as int)
    } else {
        0
    }
}

/// Whether `index` names a core that is both counted and sampled.
pub open spec fn valid_cpu_index(v: AppView, index: int) -> bool {
    0 <= index && index < v.loads.len() && index < v.n_logical
}

/// The decimal digit characters, by value.
pub open spec fn digit_chars() -> Seq<char> {
    seq!['0', '1', '2', '3', '4', '5', '6', '7', '8', '9']
}

/// `n` written in decimal, without leading zeros.
pub open spec fn decimal(n: nat) -> Seq<char>
    decreases n,
{
    if n < 10 {
        seq![digit_chars()[n as int]]
    } else {
        decimal(n / 10).push(digit_chars()[(n % 10) as int])
    }
}

/// The title of the gauge of core `cpu_id`.
pub open spec fn cpu_name(cpu_id: nat) -> Seq<char> {
    seq!['C', 'P', 'U'] + decimal(cpu_id)
}

fn digit_str(d: usize) -> (r: &'static str)
    requires
        d < 10,
    ensures
        r@ == seq![digit_chars()[d as int]],
{
    if d == 0 {
        proof { reveal_strlit("0"); }
        "0"
    } else if d == 1 {
        proof { reveal_strlit("1"); }
        "1"
    } else if d == 2 {
        proof { reveal_strlit("2"); }
        "2"
    } else if d == 3 {
        proof { reveal_strlit("3"); }
        "3"
    } else if d == 4 {
        proof { reveal_strlit("4"); }
        "4"
    } else if d == 5 {
        proof { reveal_strlit("5"); }
        "5"
    } else if d == 6 {
        proof { reveal_strlit("6"); }
        "6"
    } else if d == 7 {
        proof { reveal_strlit("7"); }
        "7"
    } else if d == 8 {
        proof { reveal_strlit("8"); }
        "8"
    } else {
        proof { reveal_strlit("9"); }
        "9"
    }
}

fn append_decimal(s: &mut String, n: usize)
    ensures
        final(s)@ == old(s)@ + decimal(n as nat),
    decreases n,
{
    if n >= 10 {
        append_decimal(s, n / 10);
    }
    s.append(digit_str(n % 10));
    assert(decimal(n as nat) =~= if n < 10 {
        seq![digit_chars()[n as int]]
    } else {
        decimal((n / 10) as nat) + seq![digit_chars()[(n % 10) as int]]
    });
}

/// The number of auxiliary rows below the core rows.
pub open spec fn extra_rows_of(v: AppView) -> nat {
    if v.display_temperature {
        1
    } else {
        0
    }
}

/// The number of cells in the core rows.
pub open spec fn core_cells(v: AppView) -> int {
    rows_for(v.n_logical as int, v.min_width as int) * v.min_width
}

/// What cell `k` of the core rows shows, in row-major order.
pub open spec fn cell_at(v: AppView, k: int) -> Cell {
    if valid_cpu_index(v, k) {
        Cell::Core { index: k as usize, ratio: clamped(v.loads[k] as int) as u32 }
    } else {
        Cell::Aggregate { ratio: clamped(v.total as int) as u32 }
    }
}

/// The layout of the dashboard of `v`.
pub open spec fn grid_of(v: AppView) -> GridSpec {
    planned(v.n_logical as int, v.min_width as int, extra_rows_of(v) as int)
}

impl App {
    #[verifier::type_invariant]
    spec fn inv(&self) -> bool {
        &&& self.min_width >= 1
        &&& self.n_logical + self.min_width < usize::MAX
    }

    /// Takes the settings and the first sample. `l_core_count`, where it is
    /// not zero, stands in for the detected logical core count. A width of
    /// zero, or one that with the core count leaves no room to count the
    /// grid's cells, is refused.
    pub fn new(
        min_width: usize,
        l_core_count: usize,
        detected_logical: usize,
        detected_physical: usize,
        loads: Vec<i64>,
        total: i64,
        display_temperature: bool,
    ) -> (r: Result<App, ConfigError>)
        ensures
            min_width == 0 ==> r == Err::<App, ConfigError>(ConfigError::ZeroWidth),
            min_width > 0 && effective_core_count(l_core_count as nat, detected_logical as nat)
                + min_width >= usize::MAX ==> r == Err::<App, ConfigError>(ConfigError::TooLarge),
            r is Ok <==> min_width > 0 && effective_core_count(
                l_core_count as nat,
                detected_logical as nat,
            ) + min_width < usize::MAX,
            r matches Ok(app) ==> {
                &&& app@.min_width == min_width
                &&& app@.loads == loads@
                &&& app@.total == total
                &&& app@.n_logical == effective_core_count(
                    l_core_count as nat,
                    detected_logical as nat,
                )
                &&& app@.n_physical == detected_physical
                &&& app@.display_temperature == display_temperature
            },
    {
        if min_width == 0 {
            return Err(ConfigError::ZeroWidth);
        }
        let logical_cpu_count = if l_core_count > 0 {
            l_core_count
        } else {
            detected_logical
        };
        if logical_cpu_count >= usize::MAX - min_width {
            return Err(ConfigError::TooLarge);
        }
        Ok(
            App {
                min_width,
                cpu_loads: loads,
                cpu_total: total,
                n_logical: logical_cpu_count,
                n_physical: detected_physical,
                display_temperature,
            },
        )
    }

    /// Replaces the readings with a fresh sample.
    pub fn update(&mut self, loads: Vec<i64>, total: i64)
        ensures
            final(self)@.loads == loads@,
            final(self)@.total == total,
            final(self)@.min_width == old(self)@.min_width,
            final(self)@.n_logical == old(self)@.n_logical,
            final(self)@.n_physical == old(self)@.n_physical,
            final(self)@.display_temperature == old(self)@.display_temperature,
    {
        proof {
            use_type_invariant(&*self);
        }
        self.cpu_loads = loads;
        self.cpu_total = total;
    }

    /// The number of rows of core gauges.
    pub fn get_row_count(&self) -> (r: usize)
        ensures
            r == rows_for(self@.n_logical as int, self@.min_width as int),
            r >= 1,
    {
        proof {
            use_type_invariant(self);
        }
        row_count(self.n_logical, self.min_width)
    }

    /// The number of gauges in a row.
    pub fn get_width(&self) -> (r: usize)
        ensures
            r == self@.min_width,
            r >= 1,
    {
        proof {
            use_type_invariant(self);
        }
        self.min_width
    }

    /// The load of core `cpu_id` as a ratio in [0, FULL_SCALE]; zero where
    /// the sample holds no load for it.
    pub fn cpu_percent_as_ratio(&self, cpu_id: usize) -> (r: u32)
        ensures
            r == core_ratio(self@, cpu_id as int),
            r <= FULL_SCALE,
    {
        if cpu_id < self.cpu_loads.len() {
            clamp_ratio(self.cpu_loads[cpu_id])
        } else {
            0
        }
    }

    /// The title of the gauge of core `cpu_id`: `CPU` and the index in
    /// decimal.
    pub fn cpu_get_name(&self, cpu_id: usize) -> (r: String)
        ensures
            r@ == cpu_name(cpu_id as nat),
    {
        let mut s = String::new();
        proof {
            reveal_strlit("CPU");
        }
        s.append("CPU");
        append_decimal(&mut s, cpu_id);
        s
    }

    /// Whether `index` names a core that is both counted and sampled.
    pub fn is_valid_cpu_index(&self, index: usize) -> (r: bool)
        ensures
            r == valid_cpu_index(self@, index as int),
    {
        index < self.cpu_loads.len() && index < self.n_logical
    }

    /// The whole machine's load, in hundredths of a percent, as sampled.
    pub fn get_avg_total(&self) -> (r: i64)
        ensures
            r == self@.total,
    {
        self.cpu_total
    }

    /// The whole machine's load as a ratio in [0, FULL_SCALE].
    pub fn avg_ratio(&self) -> (r: u32)
        ensures
            r == clamped(self@.total as int),
    {
        clamp_ratio(self.cpu_total)
    }

    /// The logical core count that the layout uses.
    pub fn logical_cpu_count(&self) -> (r: usize)
        ensures
            r == self@.n_logical,
    {
        self.n_logical
    }

    /// The physical core count, as detected.
    pub fn physical_cpu_count(&self) -> (r: usize)
        ensures
            r == self@.n_physical,
    {
        self.n_physical
    }

    /// Whether the temperature strip is shown.
    pub fn shows_temperature(&self) -> (r: bool)
        ensures
            r == self@.display_temperature,
    {
        self.display_temperature
    }

    /// The layout of this dashboard, with a row for the temperature strip
    /// where it is shown.
    pub fn grid(&self) -> (r: GridSpec)
        ensures
            r == grid_of(self@),
            r.row_count >= 1,
            r.row_count * r.columns_per_row >= self@.n_logical,
    {
        proof {
            use_type_invariant(self);
        }
        let extra: usize = if self.display_temperature {
            1
        } else {
            0
        };
        layout(self.n_logical, self.min_width, extra)
    }

    /// What each cell of one frame shows: the core rows in row-major order,
    /// then the temperature strip where it is shown.
    pub fn plan_frame(&self) -> (cells: Vec<Cell>)
        ensures
            cells@.len() == core_cells(self@) + extra_rows_of(self@),
            forall|k: int| 0 <= k < core_cells(self@) ==> #[trigger] cells@[k] == cell_at(self@, k),
            self@.display_temperature ==> cells@[core_cells(self@)] == Cell::Temperature,
    {
        proof {
            use_type_invariant(self);
            lemma_rows_bounds(self.n_logical as int, self.min_width as int);
        }
        let rows = row_count(self.n_logical, self.min_width);
        let width = self.min_width;
        let avg = clamp_ratio(self.cpu_total);
        assert(rows * width <= self.n_logical + width) by (nonlinear_arith)
            requires
                rows == rows_for(self.n_logical as int, width as int),
                rows * width < self.n_logical + width || self.n_logical < width,
                rows == 1 || self.n_logical >= width,
        ;
        let count = rows * width;
        let mut cells: Vec<Cell> = Vec::new();
        let mut k: usize = 0;
        while k < count
            invariant
                count == core_cells(self@),
                k <= count,
                avg == clamped(self@.total as int),
                cells@.len() == k,
                forall|j: int| 0 <= j < k ==> #[trigger] cells@[j] == cell_at(self@, j),
            decreases count - k,
        {
            if self.is_valid_cpu_index(k) {
                let ratio = clamp_ratio(self.cpu_loads[k]);
                cells.push(Cell::Core { index: k, ratio });
            } else {
                cells.push(Cell::Aggregate { ratio: avg });
            }
            k = k + 1;
        }
        if self.display_temperature {
            cells.push(Cell::Temperature);
        }
        cells
    }
}

} // verus!
