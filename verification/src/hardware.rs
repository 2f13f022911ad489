//! The CPU temperature and load picked out of a hardware monitor report.
use vstd::prelude::*;
use vstd::string::*;
use crate::text::{chars_of, concat3, owned, same_text};
use crate::hud::{json_quote, json_quoted};

verus! {

broadcast use vstd::seq_lib::group_seq_properties;

/// One sensor: its label and its current value as the monitor prints it.
#[derive(Clone, Debug)]
pub struct Sensor {
    pub text: String,
    pub value: String,
}

/// A group of sensors of one kind ("Temperatures", "Load", ...).
#[derive(Clone, Debug)]
pub struct SensorType {
    pub text: String,
    pub children: Vec<Sensor>,
}

/// One piece of hardware and its sensor groups.
#[derive(Clone, Debug)]
pub struct Hardware {
    pub children: Vec<SensorType>,
}

/// A computer and its hardware.
#[derive(Clone, Debug)]
pub struct Computer {
    pub children: Vec<Hardware>,
}

/// The monitor's report: the computers it watches.
#[derive(Clone, Debug)]
pub struct HardwareReport {
    pub children: Vec<Computer>,
}

/// Reading one group's sensors from the front with the temperature and load
/// found so far: "CPU Package" gives the temperature, "CPU Total" the load,
/// and any other sensor ends the group early once both are known.
pub open spec fn scan_sensors(s: Seq<Sensor>, temp: Seq<char>, load: Seq<char>) -> (Seq<char>, Seq<char>)
    decreases s.len(),
{
    if s.len() == 0 {
        (temp, load)
    } else if s[0].text@ == "CPU Package"@ {
        scan_sensors(s.skip(1), s[0].value@, load)
    } else if s[0].text@ == "CPU Total"@ {
        scan_sensors(s.skip(1), temp, s[0].value@)
    } else if temp.len() > 0 && load.len() > 0 {
        (temp, load)
    } else {
        scan_sensors(s.skip(1), temp, load)
    }
}

/// Reading the groups of one piece of hardware; only the "Temperatures"
/// and "Load" groups are read.
pub open spec fn scan_types(t: Seq<SensorType>, temp: Seq<char>, load: Seq<char>) -> (Seq<char>, Seq<char>)
    decreases t.len(),
{
    if t.len() == 0 {
        (temp, load)
    } else if t[0].text@ != "Temperatures"@ && t[0].text@ != "Load"@ {
        scan_types(t.skip(1), temp, load)
    } else {
        let r = scan_sensors(t[0].children@, temp, load);
        scan_types(t.skip(1), r.0, r.1)
    }
}

/// Reading every piece of hardware in order.
pub open spec fn scan_hardware(h: Seq<Hardware>, temp: Seq<char>, load: Seq<char>) -> (Seq<char>, Seq<char>)
    decreases h.len(),
{
    if h.len() == 0 {
        (temp, load)
    } else {
        let r = scan_types(h[0].children@, temp, load);
        scan_hardware(h.skip(1), r.0, r.1)
    }
}

/// "ERR" in place of a value that was not found.
pub open spec fn or_err(v: Seq<char>) -> Seq<char> {
    if v.len() == 0 {
        "ERR"@
    } else {
        v
    }
}

/// The CPU temperature and load of the first computer of the report.
pub open spec fn cpu_readings_of(report: HardwareReport) -> (Seq<char>, Seq<char>) {
    let r = scan_hardware(report.children@[0].children@, Seq::empty(), Seq::empty());
    (or_err(r.0), or_err(r.1))
}

fn scan_sensors_exec(s: &Vec<Sensor>, start_temp: String, start_load: String) -> (r: (String, String))
    ensures
        (r.0@, r.1@) == scan_sensors(s@, start_temp@, start_load@),
{
    let ghost t0 = start_temp@;
    let ghost l0 = start_load@;
    let mut temp = start_temp;
    let mut load = start_load;
    let mut i: usize = 0;
    while i < s.len()
        invariant
            i <= s@.len(),
            t0 == start_temp@,
            l0 == start_load@,
            scan_sensors(s@, t0, l0) == scan_sensors(s@.skip(i as int), temp@, load@),
        decreases s@.len() - i,
    {
        let ghost rest = s@.skip(i as int);
        assert(rest[0] == s@[i as int]);
        assert(rest.skip(1) =~= s@.skip(i + 1));
        let label = chars_of(s[i].text.as_str());
        if same_text(&label, "CPU Package") {
            temp = s[i].value.clone();
        } else if same_text(&label, "CPU Total") {
            load = s[i].value.clone();
        } else if temp.as_str().is_empty() == false && load.as_str().is_empty() == false {
            assert(rest.len() > 0);
            assert(scan_sensors(rest, temp@, load@) == (temp@, load@));
            assert((temp@, load@) == scan_sensors(s@, t0, l0));
            return (temp, load);
        }
        i = i + 1;
    }
    assert(s@.skip(i as int) =~= Seq::<Sensor>::empty());
    (temp, load)
}

fn scan_types_exec(t: &Vec<SensorType>, start_temp: String, start_load: String) -> (r: (String, String))
    ensures
        (r.0@, r.1@) == scan_types(t@, start_temp@, start_load@),
{
    let ghost t0 = start_temp@;
    let ghost l0 = start_load@;
    let mut temp = start_temp;
    let mut load = start_load;
    let mut i: usize = 0;
    while i < t.len()
        invariant
            i <= t@.len(),
            scan_types(t@, t0, l0) == scan_types(t@.skip(i as int), temp@, load@),
        decreases t@.len() - i,
    {
        let ghost rest = t@.skip(i as int);
        assert(rest[0] == t@[i as int]);
        assert(rest.skip(1) =~= t@.skip(i + 1));
        let label = chars_of(t[i].text.as_str());
        if same_text(&label, "Temperatures") || same_text(&label, "Load") {
            let r = scan_sensors_exec(&t[i].children, temp, load);
            temp = r.0;
            load = r.1;
        }
        i = i + 1;
    }
    assert(t@.skip(i as int) =~= Seq::<SensorType>::empty());
    (temp, load)
}

/// The CPU temperature ("CPU Package") and load ("CPU Total") in the first
/// computer of the report, "ERR" for one not found. The report must name a
/// computer: the first one is read without a check.
pub fn cpu_readings(report: &HardwareReport) -> (r: (String, String))
    requires
        report.children@.len() > 0,
    ensures
        (r.0@, r.1@) == cpu_readings_of(*report),
{
    let h = &report.children[0].children;
    let ghost t0 = Seq::<char>::empty();
    let mut temp = String::new();
    let mut load = String::new();
    let mut i: usize = 0;
    while i < h.len()
        invariant
            i <= h@.len(),
            h@ == report.children@[0].children@,
            scan_hardware(h@, t0, t0) == scan_hardware(h@.skip(i as int), temp@, load@),
        decreases h@.len() - i,
    {
        let ghost rest = h@.skip(i as int);
        assert(rest[0] == h@[i as int]);
        assert(rest.skip(1) =~= h@.skip(i + 1));
        let r = scan_types_exec(&h[i].children, temp, load);
        temp = r.0;
        load = r.1;
        i = i + 1;
    }
    assert(h@.skip(i as int) =~= Seq::<Hardware>::empty());
    if temp.as_str().is_empty() {
        temp = owned("ERR");
    }
    if load.as_str().is_empty() {
        load = owned("ERR");
    }
    (temp, load)
}

/// The CPU readings as the overlay receives them: a compact JSON object
/// with the members `cpu_load` and `cpu_temp`, in that (sorted) order.
pub open spec fn cpu_report_json(temp: Seq<char>, load: Seq<char>) -> Seq<char> {
    "{\"cpu_load\":"@ + json_quoted(load) + ",\"cpu_temp\":"@ + json_quoted(temp) + "}"@
}

/// The CPU temperature and load of the report as the JSON text that the
/// overlay receives, "ERR" for a value not found.
pub fn cpu_report_text(report: &HardwareReport) -> (r: String)
    requires
        report.children@.len() > 0,
    ensures
        r@ == cpu_report_json(cpu_readings_of(*report).0, cpu_readings_of(*report).1),
{
    let (temp, load) = cpu_readings(report);
    let ql = json_quote(load.as_str());
    let qt = json_quote(temp.as_str());
    let mut r = concat3("{\"cpu_load\":", ql.as_str(), ",\"cpu_temp\":");
    r.append(qt.as_str());
    r.append("}");
    r
}

} // verus!

verus! {

/// A sensor group other than "Temperatures" and "Load" never changes the
/// readings: reading a list of groups with such a group in it gives what
/// the list without it gives.
pub proof fn lemma_other_groups_ignored(
    t1: Seq<SensorType>,
    g: SensorType,
    t2: Seq<SensorType>,
    temp: Seq<char>,
    load: Seq<char>,
)
    requires
        g.text@ != "Temperatures"@,
        g.text@ != "Load"@,
    ensures
        scan_types(t1 + seq![g] + t2, temp, load) == scan_types(t1 + t2, temp, load),
    decreases t1.len(),
{
    let with = t1 + seq![g] + t2;
    let without = t1 + t2;
    if t1.len() == 0 {
        assert(with.skip(1) =~= t2);
        assert(without =~= t2);
    } else {
        let x = t1[0];
        assert(with[0] == x);
        assert(without[0] == x);
        assert(with.skip(1) =~= t1.skip(1) + seq![g] + t2);
        assert(without.skip(1) =~= t1.skip(1) + t2);
        if x.text@ != "Temperatures"@ && x.text@ != "Load"@ {
            lemma_other_groups_ignored(t1.skip(1), g, t2, temp, load);
        } else {
            let r = scan_sensors(x.children@, temp, load);
            lemma_other_groups_ignored(t1.skip(1), g, t2, r.0, r.1);
        }
    }
}

/// Adding a sensor group other than "Temperatures" and "Load" to a piece of
/// hardware leaves the CPU readings as they were: hardware `a` is hardware
/// `b` with such a group added, and every other piece is the same.
pub proof fn lemma_other_groups_leave_readings(
    h1: Seq<Hardware>,
    a: Hardware,
    b: Hardware,
    h2: Seq<Hardware>,
    t1: Seq<SensorType>,
    g: SensorType,
    t2: Seq<SensorType>,
    temp: Seq<char>,
    load: Seq<char>,
)
    requires
        g.text@ != "Temperatures"@,
        g.text@ != "Load"@,
        a.children@ == t1 + seq![g] + t2,
        b.children@ == t1 + t2,
    ensures
        scan_hardware(h1 + seq![a] + h2, temp, load) == scan_hardware(h1 + seq![b] + h2, temp, load),
    decreases h1.len(),
{
    let with = h1 + seq![a] + h2;
    let without = h1 + seq![b] + h2;
    if h1.len() == 0 {
        assert(with[0] == a);
        assert(without[0] == b);
        assert(with.skip(1) =~= h2);
        assert(without.skip(1) =~= h2);
        lemma_other_groups_ignored(t1, g, t2, temp, load);
    } else {
        let x = h1[0];
        assert(with[0] == x);
        assert(without[0] == x);
        assert(with.skip(1) =~= h1.skip(1) + seq![a] + h2);
        assert(without.skip(1) =~= h1.skip(1) + seq![b] + h2);
        let r = scan_types(x.children@, temp, load);
        lemma_other_groups_leave_readings(h1.skip(1), a, b, h2, t1, g, t2, r.0, r.1);
    }
}

/// The CPU readings of two reports are the same when one report's first
/// computer has a hardware item with an extra sensor group other than
/// "Temperatures" and "Load", and the reports are otherwise alike.
pub proof fn lemma_other_groups_leave_cpu_readings(
    r1: HardwareReport,
    r2: HardwareReport,
    h1: Seq<Hardware>,
    a: Hardware,
    b: Hardware,
    h2: Seq<Hardware>,
    t1: Seq<SensorType>,
    g: SensorType,
    t2: Seq<SensorType>,
)
    requires
        r1.children@.len() > 0,
        r2.children@.len() > 0,
        r1.children@[0].children@ == h1 + seq![a] + h2,
        r2.children@[0].children@ == h1 + seq![b] + h2,
        g.text@ != "Temperatures"@,
        g.text@ != "Load"@,
        a.children@ == t1 + seq![g] + t2,
        b.children@ == t1 + t2,
    ensures
        cpu_readings_of(r1) == cpu_readings_of(r2),
{
    lemma_other_groups_leave_readings(h1, a, b, h2, t1, g, t2, Seq::empty(), Seq::empty());
}

} // verus!
