//! The reporting engine: one spec function per line of output, one exec
//! formatter per record kind, and the laws the formatters obey.

use vstd::prelude::*;

use vstd::arithmetic::div_mod::lemma_fundamental_div_mod;
use vstd::arithmetic::div_mod::lemma_mod_mod;

use crate::model::ACAdapterInfo;
use crate::model::BatteryInfo;
use crate::model::ChargingState;
use crate::model::Config;
use crate::model::PowerSupplyInfo;
use crate::model::Status;
use crate::model::ThermalSensor;
use crate::model::TripPoint;
use crate::model::Units;
use crate::text::dec_of;
use crate::text::pad2_of;
use crate::text::signed_tenths_of;
use crate::text::tenths_of;
use crate::text::i32_to_signed_tenths;
use crate::text::u64_to_dec;
use crate::text::u64_to_pad2;
use crate::text::u64_to_tenths;

verus! {

/// The display label of a charging state.
pub open spec fn state_label(st: ChargingState) -> Seq<char> {
    match st {
        ChargingState::Charging => "Charging"@,
        ChargingState::Discharging => "Discharging"@,
        ChargingState::Full => "Full"@,
    }
}

/// The `HH:MM:SS` clock rendering of `s` seconds; hours are unbounded,
/// minutes and seconds zero-padded to two digits.
pub open spec fn clock_of(s: nat) -> Seq<char> {
    pad2_of(s / 3600) + seq![':'] + pad2_of((s % 3600) / 60) + seq![':'] + pad2_of(s % 60)
}

/// The whole hours in a duration of `s` seconds, not clamped to a day.
pub open spec fn hours_of(s: nat) -> nat {
    s / 3600
}

/// The whole minutes left in a duration of `s` seconds after the hours.
pub open spec fn minutes_of(s: nat) -> nat {
    (s % 3600) / 60
}

/// The seconds left in a duration of `s` seconds after hours and minutes.
pub open spec fn seconds_of(s: nat) -> nat {
    s % 60
}

/// Splits a duration in whole seconds into hours, minutes and seconds.
pub fn decompose_duration(total: u64) -> (r: (u64, u64, u64))
    ensures
        r.0 == hours_of(total as nat),
        r.1 == minutes_of(total as nat),
        r.2 == seconds_of(total as nat),
{
    let hours: u64 = total / 3600;
    let rem: u64 = total % 3600;
    let minutes: u64 = rem / 60;
    let seconds: u64 = rem % 60;
    proof {
        lemma_mod_mod(total as int, 60, 60);
    }
    (hours, minutes, seconds)
}

/// Law: decomposing a duration into hours, minutes and seconds and
/// recombining them as `h * 3600 + m * 60 + sec` reproduces the duration
/// exactly.
pub proof fn lemma_duration_round_trip(s: nat)
    ensures
        hours_of(s) * 3600 + minutes_of(s) * 60 + seconds_of(s) == s,
{
    lemma_fundamental_div_mod(s as int, 3600);
    lemma_fundamental_div_mod((s as int) % 3600, 60);
    lemma_mod_mod(s as int, 60, 60);
}

/// Renders the `HH:MM:SS` clock of a duration in whole seconds.
pub fn clock_str(total: u64) -> (r: String)
    ensures
        r@ == clock_of(total as nat),
{
    let hms: (u64, u64, u64) = decompose_duration(total);
    let mut out = u64_to_pad2(hms.0);
    out.append(":");
    let mm = u64_to_pad2(hms.1);
    out.append(mm.as_str());
    out.append(":");
    let ss = u64_to_pad2(hms.2);
    out.append(ss.as_str());
    proof {
        reveal_strlit(":");
        assert(out@ =~= clock_of(total as nat));
    }
    out
}

/// The state-dependent tail of a battery line: a clock with a phrase while
/// charge is flowing, a fixed notice for a charging battery with no
/// measurable flow, and nothing at all for a full battery.
pub open spec fn battery_suffix(st: ChargingState, rate: u32, secs: nat) -> Seq<char> {
    match st {
        ChargingState::Charging => if rate > 0 {
            ", "@ + clock_of(secs) + " until charged"@
        } else {
            ", charging at zero rate"@
        },
        ChargingState::Discharging => ", "@ + clock_of(secs) + " remaining"@,
        ChargingState::Full => Seq::<char>::empty(),
    }
}

/// The one line always reported for a battery.
pub open spec fn battery_line(b: BatteryInfo) -> Seq<char> {
    b.name@ + ": "@ + state_label(b.state) + ", "@ + tenths_of(b.percent_tenths as nat) + "%"@
        + battery_suffix(b.state, b.present_rate, b.time_remaining_secs as nat)
}

/// The ratio of the last full charge to the design charge, in whole percent
/// rounded down; a zero design charge makes the ratio undefined and is
/// reported as 0 instead of faulting.
pub open spec fn capacity_ratio(design: nat, last: nat) -> nat {
    if design == 0 {
        0
    } else {
        (100 * last) / design
    }
}

/// The extra capacity line reported for a battery on a detailed run.
pub open spec fn battery_detail_line(b: BatteryInfo) -> Seq<char> {
    b.name@ + ": design capacity "@ + dec_of(b.design_capacity as nat)
        + " mAh, last full capacity "@ + dec_of(b.last_capacity as nat) + " mAh = "@
        + dec_of(capacity_ratio(b.design_capacity as nat, b.last_capacity as nat)) + "%"@
}

/// All lines reported for one battery: the state line, then the capacity
/// line when `detailed` is set.
pub open spec fn battery_lines(b: BatteryInfo, detailed: bool) -> Seq<Seq<char>> {
    if detailed {
        seq![battery_line(b), battery_detail_line(b)]
    } else {
        seq![battery_line(b)]
    }
}

fn state_label_str(st: &ChargingState) -> (r: &'static str)
    ensures
        r@ == state_label(*st),
{
    match st {
        ChargingState::Charging => "Charging",
        ChargingState::Discharging => "Discharging",
        ChargingState::Full => "Full",
    }
}

fn battery_suffix_str(bat: &BatteryInfo) -> (r: String)
    ensures
        r@ == battery_suffix(bat.state, bat.present_rate, bat.time_remaining_secs as nat),
{
    match bat.state {
        ChargingState::Charging => {
            if bat.present_rate > 0 {
                let mut s = String::from_str(", ");
                let clock = clock_str(bat.time_remaining_secs);
                s.append(clock.as_str());
                s.append(" until charged");
                s
            } else {
                String::from_str(", charging at zero rate")
            }
        },
        ChargingState::Discharging => {
            let mut s = String::from_str(", ");
            let clock = clock_str(bat.time_remaining_secs);
            s.append(clock.as_str());
            s.append(" remaining");
            s
        },
        ChargingState::Full => {
            let s = String::new();
            proof {
                assert(s@ =~= Seq::<char>::empty());
            }
            s
        },
    }
}

/// Renders the state line of one battery.
pub fn battery_line_str(bat: &BatteryInfo) -> (r: String)
    ensures
        r@ == battery_line(*bat),
{
    let mut line = String::from_str(bat.name.as_str());
    line.append(": ");
    line.append(state_label_str(&bat.state));
    line.append(", ");
    let pct = u64_to_tenths(bat.percent_tenths as u64);
    line.append(pct.as_str());
    line.append("%");
    let sfx = battery_suffix_str(bat);
    line.append(sfx.as_str());
    line
}

/// Renders the capacity line of one battery; a zero design capacity is
/// guarded and reported as a 0 % ratio rather than faulting.
pub fn battery_detail_line_str(bat: &BatteryInfo) -> (r: String)
    ensures
        r@ == battery_detail_line(*bat),
{
    let ratio: u64 = if bat.design_capacity == 0 {
        0
    } else {
        (100u64 * (bat.last_capacity as u64)) / (bat.design_capacity as u64)
    };
    let mut line = String::from_str(bat.name.as_str());
    line.append(": design capacity ");
    let d = u64_to_dec(bat.design_capacity as u64);
    line.append(d.as_str());
    line.append(" mAh, last full capacity ");
    let l = u64_to_dec(bat.last_capacity as u64);
    line.append(l.as_str());
    line.append(" mAh = ");
    let rt = u64_to_dec(ratio);
    line.append(rt.as_str());
    line.append("%");
    line
}

/// True when the strings in `v` spell exactly the character sequences in
/// `s`, one for one and in order.
pub open spec fn lines_match(v: Seq<String>, s: Seq<Seq<char>>) -> bool {
    v.len() == s.len() && forall|i: int| 0 <= i < s.len() ==> v[i]@ == s[i]
}

/// Renders the one or two lines reported for one battery.
pub fn format_battery_info(bat: &BatteryInfo, detailed: bool) -> (lines: Vec<String>)
    ensures
        lines_match(lines@, battery_lines(*bat, detailed)),
{
    let mut lines: Vec<String> = Vec::new();
    lines.push(battery_line_str(bat));
    if detailed {
        lines.push(battery_detail_line_str(bat));
    }
    lines
}

/// Law: the line of a charging battery with no measurable flow carries
/// exactly the fixed zero-rate suffix, never a clock string in its place,
/// and the formatted line ends with that very substring.
pub proof fn lemma_charging_zero_rate_suffix(b: BatteryInfo)
    requires
        b.state == ChargingState::Charging,
        b.present_rate == 0,
    ensures
        battery_suffix(b.state, b.present_rate, b.time_remaining_secs as nat)
            == ", charging at zero rate"@,
        battery_line(b).subrange(
            battery_line(b).len() - ", charging at zero rate"@.len(),
            battery_line(b).len() as int,
        ) == ", charging at zero rate"@,
{
    let line = battery_line(b);
    let sfx = ", charging at zero rate"@;
    assert(line.subrange(line.len() - sfx.len(), line.len() as int) =~= sfx);
}

/// Law: the zero-rate suffix never shows a time-remaining clock: it holds
/// no colon at all, while every clock rendering holds one.
pub proof fn lemma_zero_rate_suffix_shows_no_clock(secs: nat, clock_secs: nat)
    ensures
        forall|i: int|
            0 <= i < battery_suffix(ChargingState::Charging, 0u32, secs).len()
                ==> battery_suffix(ChargingState::Charging, 0u32, secs)[i] != ':',
        exists|i: int| 0 <= i < clock_of(clock_secs).len() && clock_of(clock_secs)[i] == ':',
{
    reveal_strlit(", charging at zero rate");
    let p = pad2_of(clock_secs / 3600).len() as int;
    assert((pad2_of(clock_secs / 3600) + seq![':'])[p] == ':');
    assert(clock_of(clock_secs)[p] == ':');
}

/// Law: a full battery's line carries an empty suffix whatever the rate and
/// the time remaining.
pub proof fn lemma_full_suffix_empty(rate: u32, secs: nat)
    ensures
        battery_suffix(ChargingState::Full, rate, secs) == Seq::<char>::empty(),
{
}

/// Law: a zero design capacity yields the placeholder ratio 0 instead of an
/// undefined quotient.
pub proof fn lemma_zero_design_ratio(last: nat)
    ensures
        capacity_ratio(0, last) == 0,
{
}

/// The display label of an adapter status.
pub open spec fn status_label(st: Status) -> Seq<char> {
    match st {
        Status::Online => "online"@,
        Status::Offline => "offline"@,
    }
}

/// The single line reported for an AC adapter.
pub open spec fn adapter_line(a: ACAdapterInfo) -> Seq<char> {
    a.name@ + ": "@ + status_label(a.status)
}

fn status_label_str(st: &Status) -> (r: &'static str)
    ensures
        r@ == status_label(*st),
{
    match st {
        Status::Online => "online",
        Status::Offline => "offline",
    }
}

/// Renders the line reported for one AC adapter.
pub fn format_ac_adapter_info(ac: &ACAdapterInfo) -> (r: String)
    ensures
        r@ == adapter_line(*ac),
{
    let mut line = String::from_str(ac.name.as_str());
    line.append(": ");
    line.append(status_label_str(&ac.status));
    line
}

/// Law: the status labels are a bijection between the two adapter states
/// and the two words, so no third status is representable or printed.
pub proof fn lemma_status_label_bijective(a: Status, b: Status)
    ensures
        status_label(a) == status_label(b) <==> a == b,
{
    reveal_strlit("online");
    reveal_strlit("offline");
    match a {
        Status::Online => match b {
            Status::Online => {
            },
            Status::Offline => {
                assert(status_label(a).len() != status_label(b).len());
            },
        },
        Status::Offline => match b {
            Status::Online => {
                assert(status_label(a).len() != status_label(b).len());
            },
            Status::Offline => {
            },
        },
    }
}

/// The display label of a temperature unit.
pub open spec fn unit_label(u: Units) -> Seq<char> {
    match u {
        Units::Celsius => "degrees C"@,
        Units::Fahrenheit => "degrees F"@,
        Units::Kelvin => "kelvin"@,
    }
}

/// The one line always reported for a thermal sensor.
pub open spec fn sensor_line(t: ThermalSensor) -> Seq<char> {
    t.name@ + ": "@ + signed_tenths_of(t.current_temp_tenths as int) + " "@ + unit_label(t.units)
}

/// The line reported for one trip point of the sensor called `name`, in the
/// sensor's own unit `u`.
pub open spec fn trip_point_line(name: Seq<char>, u: Units, tp: TripPoint) -> Seq<char> {
    name + ": trip point "@ + dec_of(tp.number as nat) + " switches to mode "@ + tp.action_type@
        + " at temperature "@ + signed_tenths_of(tp.temp_tenths as int) + " "@ + unit_label(u)
}

/// The trip-point lines of a sensor, one per point, in acquisition order.
pub open spec fn trip_lines_of(t: ThermalSensor) -> Seq<Seq<char>> {
    t.trip_points@.map_values(|tp: TripPoint| trip_point_line(t.name@, t.units, tp))
}

/// All lines reported for one sensor: the reading line, then one line per
/// trip point when `detailed` is set.
pub open spec fn thermal_lines(t: ThermalSensor, detailed: bool) -> Seq<Seq<char>> {
    if detailed {
        seq![sensor_line(t)] + trip_lines_of(t)
    } else {
        seq![sensor_line(t)]
    }
}

fn unit_label_str(u: &Units) -> (r: &'static str)
    ensures
        r@ == unit_label(*u),
{
    match u {
        Units::Celsius => "degrees C",
        Units::Fahrenheit => "degrees F",
        Units::Kelvin => "kelvin",
    }
}

fn trip_point_line_str(name: &String, u: &Units, tp: &TripPoint) -> (r: String)
    ensures
        r@ == trip_point_line(name@, *u, *tp),
{
    let mut line = String::from_str(name.as_str());
    line.append(": trip point ");
    let num = u64_to_dec(tp.number as u64);
    line.append(num.as_str());
    line.append(" switches to mode ");
    line.append(tp.action_type.as_str());
    line.append(" at temperature ");
    let tmp = i32_to_signed_tenths(tp.temp_tenths);
    line.append(tmp.as_str());
    line.append(" ");
    line.append(unit_label_str(u));
    line
}

/// Renders the lines reported for one thermal sensor, the trip points in
/// exactly the order the record carries them.
pub fn format_thermal_zone_info(tz: &ThermalSensor, detailed: bool) -> (lines: Vec<String>)
    ensures
        lines_match(lines@, thermal_lines(*tz, detailed)),
{
    let mut lines: Vec<String> = Vec::new();
    let mut first = String::from_str(tz.name.as_str());
    first.append(": ");
    let temp = i32_to_signed_tenths(tz.current_temp_tenths);
    first.append(temp.as_str());
    first.append(" ");
    first.append(unit_label_str(&tz.units));
    lines.push(first);
    if detailed {
        let n: usize = tz.trip_points.len();
        for j in 0..n
            invariant
                n == tz.trip_points.len(),
                lines@.len() == 1 + j,
                lines@[0]@ == sensor_line(*tz),
                forall|k: int|
                    0 <= k < j ==> lines@[k + 1]@ == trip_lines_of(*tz)[k],
        {
            let line = trip_point_line_str(&tz.name, &tz.units, &tz.trip_points[j]);
            lines.push(line);
        }
        proof {
            assert forall|i: int| 0 <= i < thermal_lines(*tz, detailed).len() implies lines@[i]@
                == thermal_lines(*tz, detailed)[i] by {
                if i > 0 {
                    assert(thermal_lines(*tz, detailed)[i] == trip_lines_of(*tz)[i - 1]);
                }
            }
        }
    }
    lines
}

/// Law: detailed thermal output carries one line per trip point, in exactly
/// the order the record supplies them, each labelled with the sensor's own
/// unit, after the reading line.
pub proof fn lemma_thermal_detail_order(t: ThermalSensor, j: int)
    requires
        0 <= j < t.trip_points@.len(),
    ensures
        thermal_lines(t, true).len() == 1 + t.trip_points@.len(),
        thermal_lines(t, true)[0] == sensor_line(t),
        thermal_lines(t, true)[j + 1] == trip_point_line(t.name@, t.units, t.trip_points@[j]),
{
}

/// The single line reported for a unified power-supply record: the full
/// battery line for a battery, the bare name for anything else.
pub open spec fn power_supply_line(p: PowerSupplyInfo) -> Seq<char> {
    if p.is_battery {
        battery_line(p.battery.unwrap())
    } else {
        p.name@
    }
}

/// Renders the line reported for one unified power-supply record.
pub fn format_power_supply_info(ps: &PowerSupplyInfo) -> (r: String)
    requires
        ps.wf(),
    ensures
        r@ == power_supply_line(*ps),
{
    if ps.is_battery {
        let bat = ps.battery.as_ref().unwrap();
        battery_line_str(bat)
    } else {
        String::from_str(ps.name.as_str())
    }
}

/// Law: strings that spell `s1` followed by strings that spell `s2` spell
/// `s1 + s2`.
pub proof fn lemma_lines_match_concat(
    v1: Seq<String>,
    v2: Seq<String>,
    s1: Seq<Seq<char>>,
    s2: Seq<Seq<char>>,
)
    requires
        lines_match(v1, s1),
        lines_match(v2, s2),
    ensures
        lines_match(v1 + v2, s1 + s2),
{
    assert forall|i: int| 0 <= i < (s1 + s2).len() implies (v1 + v2)[i]@ == (s1 + s2)[i] by {
        if i < s1.len() {
            assert((v1 + v2)[i] == v1[i]);
            assert((s1 + s2)[i] == s1[i]);
        } else {
            assert((v1 + v2)[i] == v2[i - s1.len()]);
            assert((s1 + s2)[i] == s2[i - s1.len()]);
        }
    }
}

/// The lines of a whole battery category, record by record in order.
pub open spec fn all_battery_lines(bs: Seq<BatteryInfo>, detailed: bool) -> Seq<Seq<char>>
    decreases bs.len(),
{
    if bs.len() == 0 {
        Seq::<Seq<char>>::empty()
    } else {
        all_battery_lines(bs.drop_last(), detailed) + battery_lines(bs.last(), detailed)
    }
}

/// The lines of a whole AC adapter category, record by record in order.
pub open spec fn all_adapter_lines(acs: Seq<ACAdapterInfo>) -> Seq<Seq<char>>
    decreases acs.len(),
{
    if acs.len() == 0 {
        Seq::<Seq<char>>::empty()
    } else {
        all_adapter_lines(acs.drop_last()) + seq![adapter_line(acs.last())]
    }
}

/// The lines of a whole thermal category, record by record in order.
pub open spec fn all_thermal_lines(ts: Seq<ThermalSensor>, detailed: bool) -> Seq<Seq<char>>
    decreases ts.len(),
{
    if ts.len() == 0 {
        Seq::<Seq<char>>::empty()
    } else {
        all_thermal_lines(ts.drop_last(), detailed) + thermal_lines(ts.last(), detailed)
    }
}

/// Every line of one run: the enabled categories in their fixed order,
/// batteries first, then AC adapters, then thermal sensors, and nothing for
/// a category that is switched off.
pub open spec fn report_lines(
    cfg: Config,
    bats: Seq<BatteryInfo>,
    acs: Seq<ACAdapterInfo>,
    tzs: Seq<ThermalSensor>,
) -> Seq<Seq<char>> {
    (if cfg.show_battery {
        all_battery_lines(bats, cfg.detailed)
    } else {
        Seq::<Seq<char>>::empty()
    }) + (if cfg.show_ac_adapter {
        all_adapter_lines(acs)
    } else {
        Seq::<Seq<char>>::empty()
    }) + (if cfg.show_thermal_sensors {
        all_thermal_lines(tzs, cfg.detailed)
    } else {
        Seq::<Seq<char>>::empty()
    })
}

fn format_batteries(bats: &Vec<BatteryInfo>, detailed: bool) -> (lines: Vec<String>)
    ensures
        lines_match(lines@, all_battery_lines(bats@, detailed)),
{
    let mut lines: Vec<String> = Vec::new();
    let n: usize = bats.len();
    for j in 0..n
        invariant
            n == bats.len(),
            lines_match(lines@, all_battery_lines(bats@.take(j as int), detailed)),
    {
        let mut v = format_battery_info(&bats[j], detailed);
        proof {
            lemma_lines_match_concat(
                lines@,
                v@,
                all_battery_lines(bats@.take(j as int), detailed),
                battery_lines(bats@[j as int], detailed),
            );
            assert(bats@.take(j as int + 1).drop_last() =~= bats@.take(j as int));
            assert(bats@.take(j as int + 1).last() == bats@[j as int]);
        }
        lines.append(&mut v);
    }
    proof {
        assert(bats@.take(n as int) =~= bats@);
    }
    lines
}

fn format_adapters(acs: &Vec<ACAdapterInfo>) -> (lines: Vec<String>)
    ensures
        lines_match(lines@, all_adapter_lines(acs@)),
{
    let mut lines: Vec<String> = Vec::new();
    let n: usize = acs.len();
    for j in 0..n
        invariant
            n == acs.len(),
            lines_match(lines@, all_adapter_lines(acs@.take(j as int))),
    {
        let line = format_ac_adapter_info(&acs[j]);
        let ghost pre = lines@;
        proof {
            lemma_lines_match_concat(
                pre,
                seq![line],
                all_adapter_lines(acs@.take(j as int)),
                seq![adapter_line(acs@[j as int])],
            );
            assert(acs@.take(j as int + 1).drop_last() =~= acs@.take(j as int));
            assert(acs@.take(j as int + 1).last() == acs@[j as int]);
        }
        lines.push(line);
        proof {
            assert(lines@ =~= pre + seq![line]);
        }
    }
    proof {
        assert(acs@.take(n as int) =~= acs@);
    }
    lines
}

fn format_sensors(tzs: &Vec<ThermalSensor>, detailed: bool) -> (lines: Vec<String>)
    ensures
        lines_match(lines@, all_thermal_lines(tzs@, detailed)),
{
    let mut lines: Vec<String> = Vec::new();
    let n: usize = tzs.len();
    for j in 0..n
        invariant
            n == tzs.len(),
            lines_match(lines@, all_thermal_lines(tzs@.take(j as int), detailed)),
    {
        let mut v = format_thermal_zone_info(&tzs[j], detailed);
        proof {
            lemma_lines_match_concat(
                lines@,
                v@,
                all_thermal_lines(tzs@.take(j as int), detailed),
                thermal_lines(tzs@[j as int], detailed),
            );
            assert(tzs@.take(j as int + 1).drop_last() =~= tzs@.take(j as int));
            assert(tzs@.take(j as int + 1).last() == tzs@[j as int]);
        }
        lines.append(&mut v);
    }
    proof {
        assert(tzs@.take(n as int) =~= tzs@);
    }
    lines
}

/// Runs the whole engine over the acquired records: for each category that
/// `cfg` enables, one block of lines per record in record order, the
/// categories in their fixed order.
pub fn run(
    cfg: &Config,
    batteries: &Vec<BatteryInfo>,
    adapters: &Vec<ACAdapterInfo>,
    sensors: &Vec<ThermalSensor>,
) -> (lines: Vec<String>)
    ensures
        lines_match(lines@, report_lines(*cfg, batteries@, adapters@, sensors@)),
{
    let ghost seg1: Seq<Seq<char>> = if cfg.show_battery {
        all_battery_lines(batteries@, cfg.detailed)
    } else {
        Seq::<Seq<char>>::empty()
    };
    let ghost seg2: Seq<Seq<char>> = if cfg.show_ac_adapter {
        all_adapter_lines(adapters@)
    } else {
        Seq::<Seq<char>>::empty()
    };
    let ghost seg3: Seq<Seq<char>> = if cfg.show_thermal_sensors {
        all_thermal_lines(sensors@, cfg.detailed)
    } else {
        Seq::<Seq<char>>::empty()
    };
    let mut lines: Vec<String> = Vec::new();
    if cfg.show_battery {
        let mut v = format_batteries(batteries, cfg.detailed);
        proof {
            lemma_lines_match_concat(lines@, v@, Seq::<Seq<char>>::empty(), seg1);
            assert(Seq::<Seq<char>>::empty() + seg1 =~= seg1);
        }
        lines.append(&mut v);
    }
    if cfg.show_ac_adapter {
        let mut v = format_adapters(adapters);
        proof {
            lemma_lines_match_concat(lines@, v@, seg1, seg2);
        }
        lines.append(&mut v);
    } else {
        proof {
            assert(seg1 + seg2 =~= seg1);
        }
    }
    if cfg.show_thermal_sensors {
        let mut v = format_sensors(sensors, cfg.detailed);
        proof {
            lemma_lines_match_concat(lines@, v@, seg1 + seg2, seg3);
        }
        lines.append(&mut v);
    } else {
        proof {
            assert((seg1 + seg2) + seg3 =~= seg1 + seg2);
        }
    }
    lines
}

} // verus!
