//! What is known of the machine the dashboard runs on.

use crate::text::{decimal, push_decimal};
use vstd::prelude::*;

verus! {

/// A sample of the machine's metrics, as far as they are whole numbers and
/// names.
#[derive(Debug)]
pub struct SystemState {
    /// Bytes of memory in use.
    pub memory_used: u64,
    /// Bytes of memory in all.
    pub memory_total: u64,
    /// Seconds since the machine started.
    pub uptime_secs: u64,
    pub hostname: String,
    pub os_name: String,
    /// How many processor cores there are.
    pub cpu_count: usize,
}

/// What a `SystemState` stands for.
pub struct SystemView {
    pub memory_used: u64,
    pub memory_total: u64,
    pub uptime_secs: u64,
    pub hostname: Seq<char>,
    pub os_name: Seq<char>,
    pub cpu_count: usize,
}

impl View for SystemState {
    type V = SystemView;

    open spec fn view(&self) -> SystemView {
        SystemView {
            memory_used: self.memory_used,
            memory_total: self.memory_total,
            uptime_secs: self.uptime_secs,
            hostname: self.hostname@,
            os_name: self.os_name@,
            cpu_count: self.cpu_count,
        }
    }
}

impl SystemView {
    /// The sample before anything was measured.
    pub open spec fn empty() -> SystemView {
        SystemView {
            memory_used: 0,
            memory_total: 0,
            uptime_secs: 0,
            hostname: Seq::empty(),
            os_name: Seq::empty(),
            cpu_count: 0,
        }
    }
}

impl Clone for SystemState {
    fn clone(&self) -> (r: Self)
        ensures
            r@ == self@,
    {
        SystemState {
            memory_used: self.memory_used,
            memory_total: self.memory_total,
            uptime_secs: self.uptime_secs,
            hostname: self.hostname.clone(),
            os_name: self.os_name.clone(),
            cpu_count: self.cpu_count,
        }
    }
}

impl Default for SystemState {
    fn default() -> (r: Self)
        ensures
            r@ == SystemView::empty(),
    {
        SystemState {
            memory_used: 0,
            memory_total: 0,
            uptime_secs: 0,
            hostname: String::new(),
            os_name: String::new(),
            cpu_count: 0,
        }
    }
}

/// The name to show where the machine gives none.
pub open spec fn name_or_unknown(name: Option<Seq<char>>) -> Seq<char> {
    match name {
        Some(name) => name,
        None => "unknown"@,
    }
}

/// An uptime of `secs` seconds in days, hours and minutes. Leading units
/// that are zero are left out; the minutes always stand.
pub open spec fn uptime_text(secs: u64) -> Seq<char> {
    let days = secs as nat / 86_400;
    let hours = (secs as nat % 86_400) / 3600;
    let mins = (secs as nat % 3600) / 60;
    if days > 0 {
        decimal(days) + "d "@ + decimal(hours) + "h "@ + decimal(mins) + "m"@
    } else if hours > 0 {
        decimal(hours) + "h "@ + decimal(mins) + "m"@
    } else {
        decimal(mins) + "m"@
    }
}

/// The name, or `unknown` where there is none.
fn or_unknown(name: Option<String>) -> (r: String)
    ensures
        r@ == name_or_unknown(crate::github::models::opt_text(name)),
{
    match name {
        Some(name) => name,
        None => String::from_str("unknown"),
    }
}

impl SystemState {
    /// The sample made of what was read from the machine. A name that the
    /// machine does not give reads `unknown`.
    pub fn from_readings(
        memory_used: u64,
        memory_total: u64,
        uptime_secs: u64,
        hostname: Option<String>,
        os_name: Option<String>,
        cpu_count: usize,
    ) -> (r: SystemState)
        ensures
            r@ == (SystemView {
                memory_used,
                memory_total,
                uptime_secs,
                hostname: name_or_unknown(crate::github::models::opt_text(hostname)),
                os_name: name_or_unknown(crate::github::models::opt_text(os_name)),
                cpu_count,
            }),
    {
        SystemState {
            memory_used,
            memory_total,
            uptime_secs,
            hostname: or_unknown(hostname),
            os_name: or_unknown(os_name),
            cpu_count,
        }
    }

    /// The uptime in words, such as `1d 1h 1m`.
    pub fn uptime_formatted(&self) -> (r: String)
        ensures
            r@ == uptime_text(self.uptime_secs),
    {
        let secs = self.uptime_secs;
        let days: u64 = secs / 86_400;
        let hours: u64 = (secs % 86_400) / 3600;
        let mins: u64 = (secs % 3600) / 60;
        let mut out = String::new();
        if days > 0 {
            push_decimal(&mut out, days);
            out.append("d ");
            push_decimal(&mut out, hours);
            out.append("h ");
            push_decimal(&mut out, mins);
            out.append("m");
            assert(out@ =~= uptime_text(self.uptime_secs));
        } else if hours > 0 {
            push_decimal(&mut out, hours);
            out.append("h ");
            push_decimal(&mut out, mins);
            out.append("m");
            assert(out@ =~= uptime_text(self.uptime_secs));
        } else {
            push_decimal(&mut out, mins);
            out.append("m");
            assert(out@ =~= uptime_text(self.uptime_secs));
        }
        out
    }
}

} // verus!
