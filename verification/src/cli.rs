//! What the command-line front end shows and names: the menu of monitors and
//! the file that a recording goes to.

use crate::sources::MonitorProbe;
use vstd::prelude::*;

verus! {

/// The character of a decimal digit.
pub open spec fn digit(d: nat) -> char
    recommends
        d < 10,
{
    (48 + d) as char
}

/// The decimal numeral of `n`, without leading zeros.
pub open spec fn decimal_digits(n: nat) -> Seq<char>
    decreases n,
{
    if n < 10 {
        seq![digit(n)]
    } else {
        decimal_digits(n / 10).push(digit(n % 10))
    }
}

/// The text of one decimal digit.
fn digit_text(d: u8) -> (s: &'static str)
    requires
        d < 10,
    ensures
        s@ == seq![digit(d as nat)],
{
    proof {
        reveal_strlit("0");
        reveal_strlit("1");
        reveal_strlit("2");
        reveal_strlit("3");
        reveal_strlit("4");
        reveal_strlit("5");
        reveal_strlit("6");
        reveal_strlit("7");
        reveal_strlit("8");
        reveal_strlit("9");
    }
    let s = match d {
        0 => "0",
        1 => "1",
        2 => "2",
        3 => "3",
        4 => "4",
        5 => "5",
        6 => "6",
        7 => "7",
        8 => "8",
        _ => "9",
    };
    assert(s@ =~= seq![digit(d as nat)]);
    s
}

/// Writes `n` in decimal.
pub fn decimal(n: u128) -> (s: String)
    ensures
        s@ == decimal_digits(n as nat),
    decreases n,
{
    let last = digit_text((n % 10) as u8);
    if n < 10 {
        String::from_str(last)
    } else {
        let front = decimal(n / 10);
        let s = front.concat(last);
        assert(s@ =~= decimal_digits((n / 10) as nat).push(digit((n % 10) as nat)));
        s
    }
}

/// Why the menu could not be built.
#[derive(Debug, Clone, Copy, PartialEq, Eq, Structural)]
pub enum CliError {
    /// The system reported no monitor at all.
    NoMonitors,
}

impl CliError {
    /// The text shown to the user for this error.
    pub fn message(&self) -> (s: String)
        ensures
            s@ == "No monitors found"@,
    {
        String::from_str("No monitors found")
    }
}

/// One line of the menu of monitors.
#[derive(Debug, Clone, PartialEq, Eq)]
pub struct MonitorOption {
    /// Position of the monitor in the enumeration.
    pub monitor: usize,
    pub display_name: String,
}

/// The name shown for the monitor at position `index`: its own, or
/// `Monitor N` where it has none, `N` counting from one.
pub open spec fn shown_name(index: nat, probe: MonitorProbe) -> Seq<char> {
    match probe.name {
        Some(n) => n@,
        None => "Monitor "@ + decimal_digits(index + 1),
    }
}

/// The menu line of the monitor at position `index`:
/// `Monitor N: name (WxH)`, with the dimensions that the monitor's handle
/// reports, zero standing for one that is not known.
pub open spec fn option_label(index: nat, probe: MonitorProbe) -> Seq<char> {
    let wide: nat = match probe.width {
        Some(w) => w as nat,
        None => 0,
    };
    let high: nat = match probe.height {
        Some(h) => h as nat,
        None => 0,
    };
    "Monitor "@ + decimal_digits(index + 1) + ": "@ + shown_name(index, probe) + " ("@
        + decimal_digits(wide) + "x"@ + decimal_digits(high) + ")"@
}

impl MonitorOption {
    /// The menu line for the monitor found at position `index`.
    pub fn new(index: usize, probe: &MonitorProbe) -> (option: MonitorOption)
        ensures
            option.monitor == index,
            option.display_name@ == option_label(index as nat, *probe),
    {
        let number = decimal(index as u128 + 1);
        let name: String = match &probe.name {
            Some(n) => n.clone(),
            None => String::from_str("Monitor ").concat(number.as_str()),
        };
        let wide: u32 = match probe.width {
            Some(w) => w,
            None => 0,
        };
        let high: u32 = match probe.height {
            Some(h) => h,
            None => 0,
        };
        let label = String::from_str("Monitor ").concat(number.as_str()).concat(": ").concat(
            name.as_str(),
        ).concat(" (").concat(decimal(wide as u128).as_str()).concat("x").concat(
            decimal(high as u128).as_str(),
        ).concat(")");
        MonitorOption { monitor: index, display_name: label }
    }

    /// The line as it is shown in the menu.
    pub fn label(&self) -> (s: String)
        ensures
            s == self.display_name,
    {
        self.display_name.clone()
    }
}

/// Builds the menu from which the operator picks the monitor to record: one
/// line for each monitor enumerated, in order. Without a monitor there is no
/// menu.
pub fn monitor_options(probes: &Vec<MonitorProbe>) -> (res: Result<Vec<MonitorOption>, CliError>)
    ensures
        probes@.len() == 0 ==> res == Err::<Vec<MonitorOption>, CliError>(CliError::NoMonitors),
        probes@.len() > 0 ==> res is Ok && res->Ok_0@.len() == probes@.len() && forall|i: int|
            0 <= i < probes@.len() ==> (#[trigger] res->Ok_0@[i]).monitor == i
                && res->Ok_0@[i].display_name@ == option_label(i as nat, probes@[i]),
{
    if probes.len() == 0 {
        return Err(CliError::NoMonitors);
    }
    let mut options: Vec<MonitorOption> = Vec::new();
    let mut i: usize = 0;
    while i < probes.len()
        invariant
            0 <= i <= probes.len(),
            options@.len() == i,
            forall|k: int|
                0 <= k < i ==> (#[trigger] options@[k]).monitor == k && options@[k].display_name@
                    == option_label(k as nat, probes@[k]),
        decreases probes.len() - i,
    {
        options.push(MonitorOption::new(i, &probes[i]));
        i += 1;
    }
    Ok(options)
}

/// The name of the file that a recording started at `timestamp` (seconds
/// since the epoch) is written to.
pub open spec fn file_name_text(timestamp: u64) -> Seq<char> {
    "framelet_recording_"@ + decimal_digits(timestamp as nat) + ".mp4"@
}

/// Names the file for a recording started at `timestamp`.
pub fn recording_file_name(timestamp: u64) -> (name: String)
    ensures
        name@ == file_name_text(timestamp),
{
    String::from_str("framelet_recording_").concat(decimal(timestamp as u128).as_str()).concat(
        ".mp4",
    )
}

} // verus!
