use moon_unit::percent::{percent_from_text, percent_from_wire};
use moon_unit::{
    CelestialEvent, ClockTime, ClosestPhase, DecodeError, Entry, Fault, Field, MoonPhase,
    MoonPhaseEntry, MoonPhasesResponse, OneDay, OneDayData, OneDayProps, Phenomenon, Shape,
    TzOffset, Wire,
};

fn text(value: &str) -> Wire {
    Wire::Text(value.to_string())
}

fn whole(value: i128) -> Wire {
    Wire::Integer(value)
}

fn fraction(whole: i8, minutes: i8, raw: &str) -> Wire {
    Wire::Fraction { whole, minutes, raw: raw.to_string() }
}

fn record(entries: Vec<(&str, Wire)>) -> Wire {
    Wire::Record(
        entries.into_iter().map(|(key, value)| Entry { key: key.to_string(), value }).collect(),
    )
}

fn fields(entries: Vec<(&str, Wire)>) -> Vec<Entry> {
    entries.into_iter().map(|(key, value)| Entry { key: key.to_string(), value }).collect()
}

fn error(field: Field, fault: Fault) -> DecodeError {
    DecodeError { field, fault }
}

fn wrong_shape(found: Shape, shown: &str) -> Fault {
    Fault::WrongShape { found, raw: shown.to_string() }
}

fn raw(value: &str) -> String {
    value.to_string()
}

/// A response for one day. The three names are the spellings under which
/// the current phase, the nearest phase and the event of an item are sent.
fn one_day_response(current: &str, closest: &str, phen: &str) -> Wire {
    let data = record(vec![
        ("apiversion", text("4.0.1")),
        (
            closest,
            record(vec![
                ("day", whole(27)),
                ("month", whole(4)),
                ("phase", text("New Moon")),
                ("time", text("19:31")),
                ("year", whole(2025)),
            ]),
        ),
        (current, text("Waning Crescent")),
        ("day", whole(25)),
        ("day_of_week", text("Friday")),
        ("fracillum", text("9%")),
        ("isdst", Wire::Flag(false)),
        ("label", Wire::Null),
        ("month", whole(4)),
        (
            "moondata",
            Wire::List(vec![
                record(vec![(phen, text("Rise")), ("time", text("04:45"))]),
                record(vec![(phen, text("Upper Transit")), ("time", text("10:48"))]),
                record(vec![(phen, text("Set")), ("time", text("17:03"))]),
            ]),
        ),
        (
            "sundata",
            Wire::List(vec![
                record(vec![(phen, text("Begin Civil Twilight")), ("time", text("05:36"))]),
                record(vec![
                    (phen, text("End Civil Twilight")),
                    ("time", record(vec![("hour", whole(20)), ("minute", whole(31))])),
                ]),
            ]),
        ),
        ("tz", fraction(-6, 0, "-6.0")),
        ("year", whole(2025)),
    ]);
    record(vec![
        ("apiversion", text("4.0.1")),
        ("geometry", record(vec![("type", text("Point"))])),
        ("properties", record(vec![("data", data)])),
        ("type", text("Feature")),
    ])
}

fn one_day_decoded() -> OneDay {
    OneDay {
        properties: OneDayProps {
            data: OneDayData {
                closest_phase: ClosestPhase {
                    day: 27,
                    month: 4,
                    year: 2025,
                    time: ClockTime { hour: 19, minute: 31 },
                    phase: MoonPhase::New,
                },
                current_phase: MoonPhase::WaningCrescent,
                day_of_week: "Friday".to_string(),
                percent_illuminated: 9,
                moon_data: vec![
                    CelestialEvent {
                        phenomenon: Phenomenon::Rise,
                        time: ClockTime { hour: 4, minute: 45 },
                    },
                    CelestialEvent {
                        phenomenon: Phenomenon::Apex,
                        time: ClockTime { hour: 10, minute: 48 },
                    },
                    CelestialEvent {
                        phenomenon: Phenomenon::Setting,
                        time: ClockTime { hour: 17, minute: 3 },
                    },
                ],
                sun_data: vec![
                    CelestialEvent {
                        phenomenon: Phenomenon::TwilightBegins,
                        time: ClockTime { hour: 5, minute: 36 },
                    },
                    CelestialEvent {
                        phenomenon: Phenomenon::TwilightEnds,
                        time: ClockTime { hour: 20, minute: 31 },
                    },
                ],
                month: 4,
                day: 25,
                year: 2025,
                tz: TzOffset { hours: -6, minutes: 0 },
            },
        },
    }
}

#[test]
fn time_text_decodes() {
    assert_eq!(ClockTime::from_text("6:30"), Ok(ClockTime { hour: 6, minute: 30 }));
    assert_eq!(ClockTime::from_text("06:05"), Ok(ClockTime { hour: 6, minute: 5 }));
    assert_eq!(ClockTime::from_text("0:0"), Ok(ClockTime { hour: 0, minute: 0 }));
    assert_eq!(ClockTime::from_text("23:59"), Ok(ClockTime { hour: 23, minute: 59 }));
    assert_eq!(ClockTime::from_text("+6:+30"), Ok(ClockTime { hour: 6, minute: 30 }));
    assert_eq!(ClockTime::from_text("0006:0030"), Ok(ClockTime { hour: 6, minute: 30 }));
}

#[test]
fn time_text_keeps_numbers_out_of_the_clock() {
    assert_eq!(ClockTime::from_text("24:00"), Ok(ClockTime { hour: 24, minute: 0 }));
    assert_eq!(ClockTime::from_text("99:99"), Ok(ClockTime { hour: 99, minute: 99 }));
    assert_eq!(ClockTime::from_text("255:255"), Ok(ClockTime { hour: 255, minute: 255 }));
}

#[test]
fn time_text_without_colon_is_rejected() {
    for bad in ["", "630", "6.30", "6 30", "noon"] {
        assert_eq!(
            ClockTime::from_text(bad),
            Err(error(Field::Time, Fault::MissingColon { raw: raw(bad) }))
        );
    }
    assert_eq!(
        ClockTime::from_text("6.30").unwrap_err().message(),
        "time: time missing colon: 6.30"
    );
}

#[test]
fn time_text_with_bad_hour_is_rejected() {
    for bad in [":30", "x:30", "6 :30", " 6:30", "-6:30", "256:00", "+:30", "6h:30", "١:30"] {
        assert_eq!(
            ClockTime::from_text(bad),
            Err(error(Field::Time, Fault::InvalidHour { raw: raw(bad) }))
        );
    }
    assert_eq!(ClockTime::from_text("x:y").unwrap_err().message(), "time: invalid hour: x:y");
}

#[test]
fn time_text_with_bad_minute_is_rejected() {
    for bad in ["6:", "6:xx", "6:30:15", "6:30 ", "6:-1", "6:256", "6:3é", "6::30"] {
        assert_eq!(
            ClockTime::from_text(bad),
            Err(error(Field::Time, Fault::InvalidMinute { raw: raw(bad) }))
        );
    }
    assert_eq!(
        ClockTime::from_text("6:30:15").unwrap_err().message(),
        "time: invalid minute: 6:30:15"
    );
}

#[test]
fn time_text_reads_numbers_as_std_does() {
    for part in ["", "0", "7", "007", "+7", "-7", "255", "256", "1000", "7 ", "a", "+", "++7"] {
        let joined = format!("{part}:{part}");
        let ours = ClockTime::from_text(&joined).ok();
        let theirs = part.parse::<u8>().ok().map(|n| ClockTime { hour: n, minute: n });
        assert_eq!(ours, theirs);
    }
}

#[test]
fn time_record_decodes() {
    let given = fields(vec![("hour", whole(6)), ("minute", whole(30))]);
    assert_eq!(ClockTime::from_fields(&given), Ok(ClockTime { hour: 6, minute: 30 }));
    let swapped = fields(vec![("minute", whole(30)), ("note", text("x")), ("hour", whole(6))]);
    assert_eq!(ClockTime::from_fields(&swapped), Ok(ClockTime { hour: 6, minute: 30 }));
}

#[test]
fn time_record_takes_the_last_of_a_part() {
    let given = fields(vec![("hour", whole(1)), ("minute", whole(2)), ("hour", whole(3))]);
    assert_eq!(ClockTime::from_fields(&given), Ok(ClockTime { hour: 3, minute: 2 }));
}

#[test]
fn time_record_without_a_part_is_rejected() {
    assert_eq!(ClockTime::from_fields(&fields(vec![])), Err(error(Field::Hour, Fault::Missing)));
    assert_eq!(
        ClockTime::from_fields(&fields(vec![("minute", whole(30))])),
        Err(error(Field::Hour, Fault::Missing))
    );
    assert_eq!(
        ClockTime::from_fields(&fields(vec![("hour", whole(6))])),
        Err(error(Field::Minute, Fault::Missing))
    );
    assert_eq!(error(Field::Minute, Fault::Missing).message(), "minute: missing");
}

#[test]
fn time_record_with_a_bad_part_is_rejected() {
    assert_eq!(
        ClockTime::from_fields(&fields(vec![("hour", text("6")), ("minute", whole(30))])),
        Err(error(Field::Hour, wrong_shape(Shape::Text, "6")))
    );
    assert_eq!(
        ClockTime::from_fields(&fields(vec![("minute", whole(256)), ("hour", text("6"))])),
        Err(error(Field::Minute, Fault::OutOfRange { value: 256 }))
    );
    assert_eq!(
        ClockTime::from_fields(&fields(vec![("hour", whole(-1)), ("hour", whole(6))])),
        Err(error(Field::Hour, Fault::OutOfRange { value: -1 }))
    );
    assert_eq!(
        error(Field::Hour, Fault::OutOfRange { value: -1 }).message(),
        "hour: out of range: -1"
    );
}

#[test]
fn time_decodes_alike_from_both_shapes() {
    let written = ClockTime::from_wire(&text("6:30"));
    let structured = ClockTime::from_wire(&record(vec![("hour", whole(6)), ("minute", whole(30))]));
    assert_eq!(written, Ok(ClockTime { hour: 6, minute: 30 }));
    assert_eq!(structured, written);
    for hour in [0u8, 6, 23, 24, 255] {
        for minute in [0u8, 5, 59, 60, 255] {
            let written = ClockTime::from_wire(&text(&format!("{hour}:{minute:02}")));
            let structured = ClockTime::from_wire(&record(vec![
                ("hour", whole(hour as i128)),
                ("minute", whole(minute as i128)),
            ]));
            assert_eq!(written, Ok(ClockTime { hour, minute }));
            assert_eq!(structured, written);
        }
    }
}

#[test]
fn time_of_another_shape_is_rejected() {
    assert_eq!(
        ClockTime::from_wire(&whole(630)),
        Err(error(Field::Time, wrong_shape(Shape::Integer, "630")))
    );
    assert_eq!(
        ClockTime::from_wire(&Wire::List(vec![whole(6), whole(30)])),
        Err(error(Field::Time, wrong_shape(Shape::List, "[..]")))
    );
    assert_eq!(
        ClockTime::from_wire(&Wire::Null).unwrap_err().message(),
        "time: unexpected null: null"
    );
}

#[test]
fn percent_text_decodes() {
    assert_eq!(percent_from_text("87%"), Ok(87));
    assert_eq!(percent_from_text("87"), Ok(87));
    assert_eq!(percent_from_text("0%"), Ok(0));
    assert_eq!(percent_from_text("100%"), Ok(100));
    assert_eq!(percent_from_text("255%"), Ok(255));
    assert_eq!(percent_from_text("+5%"), Ok(5));
}

#[test]
fn percent_text_that_is_no_number_is_rejected() {
    for bad in [
        "", "%", "%%", "87%%", "87%%%", "abc%", "87 %", " 87%", "87%x", "%87", "8%7%", "256%",
        "-1%", "-5%", "8.5%", "87.5%",
    ] {
        assert_eq!(
            percent_from_text(bad),
            Err(error(Field::PercentIlluminated, Fault::InvalidPercent { raw: raw(bad) }))
        );
    }
    assert_eq!(
        percent_from_text("abc%").unwrap_err().message(),
        "percent_illuminated: failed to parse percent: abc%"
    );
}

#[test]
fn percent_text_loses_one_sign_and_no_more() {
    assert_eq!(percent_from_text("87%"), Ok(87));
    assert_eq!(
        percent_from_text("87%%"),
        Err(error(Field::PercentIlluminated, Fault::InvalidPercent { raw: raw("87%%") }))
    );
    assert_eq!(
        percent_from_wire(&text("87%%")),
        Err(error(Field::PercentIlluminated, Fault::InvalidPercent { raw: raw("87%%") }))
    );
    assert_eq!(
        percent_from_text("87%%").unwrap_err().message(),
        "percent_illuminated: failed to parse percent: 87%%"
    );
}

#[test]
fn percent_text_is_read_as_std_reads_it() {
    for given in ["87%", "87", "%", "", "87%%", "0087%", "+1%", "-1%", "300%", "3 %", "%3"] {
        let theirs = given.strip_suffix('%').unwrap_or(given).parse::<u8>().ok();
        assert_eq!(percent_from_text(given).ok(), theirs);
    }
}

#[test]
fn percent_decodes_alike_from_both_shapes() {
    assert_eq!(percent_from_wire(&whole(87)), Ok(87));
    assert_eq!(percent_from_wire(&text("87%")), Ok(87));
    for percent in 0u8..=255 {
        assert_eq!(percent_from_wire(&whole(percent as i128)), Ok(percent));
        assert_eq!(percent_from_wire(&text(&format!("{percent}%"))), Ok(percent));
        assert_eq!(percent_from_wire(&text(&format!("{percent}"))), Ok(percent));
    }
}

#[test]
fn percent_beyond_a_byte_or_of_another_shape_is_rejected() {
    assert_eq!(
        percent_from_wire(&whole(256)),
        Err(error(Field::PercentIlluminated, Fault::OutOfRange { value: 256 }))
    );
    assert_eq!(
        percent_from_wire(&whole(-1)),
        Err(error(Field::PercentIlluminated, Fault::OutOfRange { value: -1 }))
    );
    assert_eq!(
        percent_from_wire(&fraction(87, 30, "87.5")),
        Err(error(Field::PercentIlluminated, wrong_shape(Shape::Fraction, "87.5")))
    );
    assert_eq!(
        percent_from_wire(&Wire::Flag(true)).unwrap_err().message(),
        "percent_illuminated: unexpected flag: true"
    );
}

#[test]
fn phases_read_from_both_spellings_and_write_one() {
    let all = [
        (MoonPhase::New, "New", "New Moon"),
        (MoonPhase::WaxingCrescent, "WaxingCrescent", "Waxing Crescent"),
        (MoonPhase::FirstQuarter, "FirstQuarter", "First Quarter"),
        (MoonPhase::WaxingGibbous, "WaxingGibbous", "Waxing Gibbous"),
        (MoonPhase::Full, "Full", "Full Moon"),
        (MoonPhase::WaningGibbous, "WaningGibbous", "Waning Gibbous"),
        (MoonPhase::LastQuarter, "LastQuarter", "Last Quarter"),
        (MoonPhase::WaningCrescent, "WaningCrescent", "Waning Crescent"),
    ];
    for (phase, tag, alias) in all {
        assert_eq!(phase.tag(), tag);
        assert_eq!(phase.alias(), alias);
        assert_eq!(MoonPhase::from_text(tag), Some(phase));
        assert_eq!(MoonPhase::from_text(alias), Some(phase));
        assert_eq!(MoonPhase::from_text(phase.tag()), Some(phase));
    }
    for bad in ["", "new", "New moon", "NewMoon", "Full ", "Moon"] {
        assert_eq!(MoonPhase::from_text(bad), None);
    }
}

#[test]
fn events_read_from_both_spellings_and_write_one() {
    let all = [
        (Phenomenon::Rise, "Rise", None),
        (Phenomenon::Apex, "Apex", Some("Upper Transit")),
        (Phenomenon::TwilightBegins, "TwilightBegins", Some("Begin Civil Twilight")),
        (Phenomenon::Setting, "Set", None),
        (Phenomenon::TwilightEnds, "TwilightEnds", Some("End Civil Twilight")),
    ];
    for (event, tag, alias) in all {
        assert_eq!(event.tag(), tag);
        assert_eq!(event.alias(), alias);
        assert_eq!(Phenomenon::from_text(tag), Some(event));
        if let Some(alias) = alias {
            assert_eq!(Phenomenon::from_text(alias), Some(event));
        }
    }
    for bad in ["", "rise", "Sets", "Upper transit", "Twilight"] {
        assert_eq!(Phenomenon::from_text(bad), None);
    }
}

#[test]
fn fields_accept_their_two_spellings_and_no_others() {
    let aliased = [
        (Field::ClosestPhase, "closest_phase", "closestphase"),
        (Field::CurrentPhase, "current_phase", "curphase"),
        (Field::PercentIlluminated, "percent_illuminated", "fracillum"),
        (Field::MoonData, "moon_data", "moondata"),
        (Field::SunData, "sun_data", "sundata"),
        (Field::Phenomenon, "phenomenon", "phen"),
        (Field::Count, "count", "numphases"),
        (Field::Phases, "phases", "phasedata"),
    ];
    for (field, name, alias) in aliased {
        assert_eq!(field.name(), name);
        assert_eq!(field.alias(), Some(alias));
        assert!(field.accepts(name));
        assert!(field.accepts(alias));
        for (other, _, _) in aliased {
            assert_eq!(other.accepts(name), other == field);
            assert_eq!(other.accepts(alias), other == field);
        }
    }
    for (field, name) in [(Field::Year, "year"), (Field::Time, "time"), (Field::Tz, "tz")] {
        assert_eq!(field.name(), name);
        assert_eq!(field.alias(), None);
        assert!(field.accepts(name));
        assert!(!field.accepts("Year"));
        assert!(!field.accepts(""));
    }
}

#[test]
fn one_day_response_decodes() {
    let response = one_day_response("curphase", "closestphase", "phen");
    assert_eq!(OneDay::from_wire(&response), Ok(one_day_decoded()));
}

#[test]
fn one_day_response_decodes_alike_under_either_spelling() {
    let short = OneDay::from_wire(&one_day_response("curphase", "closestphase", "phen"));
    let long = OneDay::from_wire(&one_day_response("current_phase", "closest_phase", "phenomenon"));
    let mixed = OneDay::from_wire(&one_day_response("curphase", "closest_phase", "phen"));
    assert_eq!(short, Ok(one_day_decoded()));
    assert_eq!(long, short);
    assert_eq!(mixed, short);
}

#[test]
fn one_day_response_under_a_third_spelling_lacks_the_field() {
    let response = one_day_response("currentphase", "closestphase", "phen");
    assert_eq!(OneDay::from_wire(&response), Err(error(Field::CurrentPhase, Fault::Missing)));
    assert_eq!(
        OneDay::from_wire(&response).unwrap_err().message(),
        "current_phase: missing"
    );
}

#[test]
fn field_given_under_both_spellings_is_rejected() {
    let given = fields(vec![
        ("phen", text("Rise")),
        ("time", text("04:45")),
        ("phenomenon", text("Rise")),
    ]);
    assert_eq!(
        CelestialEvent::from_fields(&given),
        Err(error(Field::Phenomenon, Fault::Duplicate))
    );
    let twice = fields(vec![("phen", text("Rise")), ("phen", text("Set")), ("time", text("1:1"))]);
    assert_eq!(
        CelestialEvent::from_fields(&twice),
        Err(error(Field::Phenomenon, Fault::Duplicate))
    );
    assert_eq!(error(Field::Phenomenon, Fault::Duplicate).message(), "phenomenon: given twice");
}

#[test]
fn response_of_another_shape_is_rejected() {
    assert_eq!(
        OneDay::from_wire(&text("{}")),
        Err(error(Field::Response, wrong_shape(Shape::Text, "{}")))
    );
    assert_eq!(
        OneDay::from_wire(&record(vec![])),
        Err(error(Field::Properties, Fault::Missing))
    );
    assert_eq!(
        OneDay::from_wire(&record(vec![("properties", record(vec![("data", Wire::Null)]))])),
        Err(error(Field::Data, wrong_shape(Shape::Null, "null")))
    );
    assert_eq!(
        MoonPhasesResponse::from_wire(&Wire::List(vec![])),
        Err(error(Field::Response, wrong_shape(Shape::List, "[..]")))
    );
    assert_eq!(
        error(Field::Response, wrong_shape(Shape::Record, "{..}")).message(),
        "response: unexpected record: {..}"
    );
}

#[test]
fn name_of_no_phase_or_event_is_rejected() {
    let phase = fields(vec![
        ("phase", text("Blue Moon")),
        ("day", whole(1)),
        ("month", whole(1)),
        ("year", whole(2025)),
        ("time", text("1:1")),
    ]);
    assert_eq!(
        MoonPhaseEntry::from_fields(&phase),
        Err(error(Field::Phase, Fault::UnknownName { raw: raw("Blue Moon") }))
    );
    let event = fields(vec![("phen", text("Eclipse")), ("time", text("1:1"))]);
    assert_eq!(
        CelestialEvent::from_fields(&event),
        Err(error(Field::Phenomenon, Fault::UnknownName { raw: raw("Eclipse") }))
    );
    assert_eq!(
        CelestialEvent::from_fields(&event).unwrap_err().message(),
        "phenomenon: unknown name: Eclipse"
    );
}

#[test]
fn numbers_beyond_their_field_are_rejected() {
    let entry = |day: i128, year: i128| {
        fields(vec![
            ("phase", text("Full Moon")),
            ("day", whole(day)),
            ("month", whole(1)),
            ("year", whole(year)),
            ("time", text("1:1")),
        ])
    };
    assert!(MoonPhaseEntry::from_fields(&entry(255, 65535)).is_ok());
    assert_eq!(
        MoonPhaseEntry::from_fields(&entry(256, 2025)),
        Err(error(Field::Day, Fault::OutOfRange { value: 256 }))
    );
    assert_eq!(
        MoonPhaseEntry::from_fields(&entry(1, 65536)),
        Err(error(Field::Year, Fault::OutOfRange { value: 65536 }))
    );
    assert_eq!(
        MoonPhaseEntry::from_fields(&entry(1, -1)),
        Err(error(Field::Year, Fault::OutOfRange { value: -1 }))
    );
    assert_eq!(
        error(Field::Year, Fault::OutOfRange { value: i128::MIN }).message(),
        "year: out of range: -170141183460469231731687303715884105728"
    );
    assert_eq!(
        error(Field::Year, Fault::OutOfRange { value: i128::MAX }).message(),
        "year: out of range: 170141183460469231731687303715884105727"
    );
}

#[test]
fn first_fault_in_the_order_of_the_fields_is_named() {
    let given = fields(vec![("time", text("x")), ("year", text("y")), ("month", whole(300))]);
    assert_eq!(ClosestPhase::from_fields(&given), Err(error(Field::Day, Fault::Missing)));
    let given = fields(vec![("time", text("x")), ("day", whole(1)), ("month", whole(300))]);
    assert_eq!(
        ClosestPhase::from_fields(&given),
        Err(error(Field::Month, Fault::OutOfRange { value: 300 }))
    );
}

#[test]
fn offset_decodes_from_whole_and_fractional_hours() {
    let with_tz = |tz: Wire| {
        let mut response = one_day_response("curphase", "closestphase", "phen");
        if let Wire::Record(root) = &mut response {
            if let Wire::Record(properties) = &mut root[2].value {
                if let Wire::Record(data) = &mut properties[0].value {
                    let at = data.iter().position(|entry| entry.key == "tz").unwrap();
                    data[at].value = tz;
                }
            }
        }
        OneDay::from_wire(&response).map(|decoded| decoded.properties.data.tz)
    };
    assert_eq!(with_tz(whole(-6)), Ok(TzOffset { hours: -6, minutes: 0 }));
    assert_eq!(with_tz(whole(0)), Ok(TzOffset { hours: 0, minutes: 0 }));
    assert_eq!(with_tz(whole(127)), Ok(TzOffset { hours: 127, minutes: 0 }));
    assert_eq!(with_tz(whole(128)), Ok(TzOffset { hours: 127, minutes: 0 }));
    assert_eq!(with_tz(whole(-129)), Ok(TzOffset { hours: -128, minutes: 0 }));
    assert_eq!(with_tz(whole(i128::MAX)), Ok(TzOffset { hours: 127, minutes: 0 }));
    assert_eq!(
        with_tz(fraction(5, 30, "5.5")),
        Ok(TzOffset { hours: 5, minutes: 30 })
    );
    assert_eq!(
        with_tz(text("-6")),
        Err(error(Field::Tz, wrong_shape(Shape::Text, "-6")))
    );
}

#[test]
fn fractional_number_in_the_wrong_place_is_shown_as_received() {
    let given = fields(vec![("hour", fraction(6, 30, "6.50")), ("minute", whole(0))]);
    assert_eq!(
        ClockTime::from_fields(&given),
        Err(error(Field::Hour, wrong_shape(Shape::Fraction, "6.50")))
    );
    assert_eq!(
        ClockTime::from_fields(&given).unwrap_err().message(),
        "hour: unexpected fraction: 6.50"
    );
}

#[test]
fn phases_response_decodes() {
    let response = |count: &str, phases: &str| {
        record(vec![
            ("apiversion", text("4.0.1")),
            (count, whole(2)),
            (
                phases,
                Wire::List(vec![
                    record(vec![
                        ("day", whole(27)),
                        ("month", whole(4)),
                        ("phase", text("New Moon")),
                        ("time", text("19:31")),
                        ("year", whole(2025)),
                    ]),
                    record(vec![
                        ("day", whole(4)),
                        ("month", whole(5)),
                        ("phase", text("FirstQuarter")),
                        ("time", record(vec![("hour", whole(13)), ("minute", whole(52))])),
                        ("year", whole(2025)),
                    ]),
                ]),
            ),
        ])
    };
    let decoded = MoonPhasesResponse {
        count: 2,
        phases: vec![
            MoonPhaseEntry {
                phase: MoonPhase::New,
                day: 27,
                month: 4,
                year: 2025,
                time: ClockTime { hour: 19, minute: 31 },
            },
            MoonPhaseEntry {
                phase: MoonPhase::FirstQuarter,
                day: 4,
                month: 5,
                year: 2025,
                time: ClockTime { hour: 13, minute: 52 },
            },
        ],
    };
    assert_eq!(MoonPhasesResponse::from_wire(&response("numphases", "phasedata")), Ok(decoded));
    assert_eq!(
        MoonPhasesResponse::from_wire(&response("count", "phases")),
        MoonPhasesResponse::from_wire(&response("numphases", "phasedata"))
    );
}

#[test]
fn phases_count_is_not_held_to_the_list() {
    let response = record(vec![("numphases", whole(7)), ("phasedata", Wire::List(vec![]))]);
    assert_eq!(
        MoonPhasesResponse::from_wire(&response),
        Ok(MoonPhasesResponse { count: 7, phases: vec![] })
    );
}

#[test]
fn list_fails_on_its_first_bad_item() {
    let good = || {
        record(vec![
            ("day", whole(1)),
            ("month", whole(1)),
            ("phase", text("Full")),
            ("time", text("1:1")),
            ("year", whole(2025)),
        ])
    };
    let items = vec![
        good(),
        record(vec![("phase", text("Full"))]),
        text("row"),
        good(),
    ];
    assert_eq!(MoonPhaseEntry::list_from_wire(&items), Err(error(Field::Day, Fault::Missing)));
    let items = vec![good(), text("row"), record(vec![("phase", text("Full"))])];
    assert_eq!(
        MoonPhaseEntry::list_from_wire(&items),
        Err(error(Field::Phases, wrong_shape(Shape::Text, "row")))
    );
    assert_eq!(MoonPhaseEntry::list_from_wire(&vec![good(), good()]).unwrap().len(), 2);
    let events = vec![record(vec![("phen", text("Rise")), ("time", whole(5))])];
    assert_eq!(
        CelestialEvent::list_from_wire(&events, Field::SunData),
        Err(error(Field::Time, wrong_shape(Shape::Integer, "5")))
    );
    assert_eq!(
        CelestialEvent::list_from_wire(&vec![whole(5)], Field::SunData),
        Err(error(Field::SunData, wrong_shape(Shape::Integer, "5")))
    );
}
