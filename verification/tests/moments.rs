use moon_unit::{
    CalendarDate, CelestialEvent, ClockTime, ClosestPhase, DateTime, MoonPhase, MoonPhaseEntry,
    Offset, OneDayData, Phenomenon, TimeOfDay, TzOffset, WhenError, ZonedDateTime,
};

fn entry(year: u16, month: u8, day: u8, hour: u8, minute: u8) -> MoonPhaseEntry {
    MoonPhaseEntry { phase: MoonPhase::Full, day, month, year, time: ClockTime { hour, minute } }
}

fn day_record(year: u16, month: u8, day: u8, hours: i8, minutes: i8) -> OneDayData {
    OneDayData {
        closest_phase: ClosestPhase {
            day: 31,
            month: 2,
            year: 2025,
            time: ClockTime { hour: 99, minute: 99 },
            phase: MoonPhase::New,
        },
        current_phase: MoonPhase::WaningCrescent,
        day_of_week: "Friday".to_string(),
        percent_illuminated: 9,
        moon_data: vec![CelestialEvent {
            phenomenon: Phenomenon::Rise,
            time: ClockTime { hour: 4, minute: 45 },
        }],
        sun_data: Vec::new(),
        month,
        day,
        year,
        tz: TzOffset { hours, minutes },
    }
}

fn midnight() -> TimeOfDay {
    TimeOfDay { hour: 0, minute: 0, second: 0 }
}

#[test]
fn phase_entry_resolves_to_its_date_and_time() {
    assert_eq!(
        entry(2025, 4, 25, 6, 30).when(),
        Ok(DateTime {
            date: CalendarDate { year: 2025, month: 4, day: 25 },
            time: TimeOfDay { hour: 6, minute: 30, second: 0 },
        })
    );
}

#[test]
fn closest_phase_resolves_to_its_date_and_time() {
    let phase = ClosestPhase {
        day: 27,
        month: 4,
        year: 2025,
        time: ClockTime { hour: 19, minute: 31 },
        phase: MoonPhase::New,
    };
    assert_eq!(
        phase.when(),
        Ok(DateTime {
            date: CalendarDate { year: 2025, month: 4, day: 27 },
            time: TimeOfDay { hour: 19, minute: 31, second: 0 },
        })
    );
}

#[test]
fn february_30_is_rejected() {
    assert_eq!(
        entry(2025, 2, 30, 6, 30).when(),
        Err(WhenError::InvalidDate { year: 2025, month: 2, day: 30 })
    );
    assert_eq!(
        day_record(2025, 2, 30, 0, 0).when(),
        Err(WhenError::InvalidDate { year: 2025, month: 2, day: 30 })
    );
    assert_eq!(
        WhenError::InvalidDate { year: 2025, month: 2, day: 30 }.message(),
        "invalid date: 2025-02-30"
    );
}

#[test]
fn february_29_is_a_date_in_leap_years_only() {
    assert!(entry(2024, 2, 29, 0, 0).when().is_ok());
    assert!(entry(2000, 2, 29, 0, 0).when().is_ok());
    assert_eq!(
        entry(2025, 2, 29, 0, 0).when(),
        Err(WhenError::InvalidDate { year: 2025, month: 2, day: 29 })
    );
    assert_eq!(
        entry(1900, 2, 29, 0, 0).when(),
        Err(WhenError::InvalidDate { year: 1900, month: 2, day: 29 })
    );
}

#[test]
fn month_is_asked_before_the_day() {
    assert_eq!(entry(2025, 0, 99, 99, 99).when(), Err(WhenError::InvalidMonth { month: 0 }));
    assert_eq!(entry(2025, 13, 1, 0, 0).when(), Err(WhenError::InvalidMonth { month: 13 }));
    assert_eq!(WhenError::InvalidMonth { month: 13 }.message(), "invalid month in date: 13");
}

#[test]
fn date_is_asked_before_the_time() {
    assert_eq!(
        entry(2025, 4, 31, 24, 0).when(),
        Err(WhenError::InvalidDate { year: 2025, month: 4, day: 31 })
    );
    assert_eq!(
        entry(2025, 4, 0, 0, 0).when(),
        Err(WhenError::InvalidDate { year: 2025, month: 4, day: 0 })
    );
}

#[test]
fn year_beyond_the_calendar_is_rejected() {
    assert!(entry(9999, 12, 31, 23, 59).when().is_ok());
    assert!(entry(0, 1, 1, 0, 0).when().is_ok());
    assert_eq!(
        entry(10000, 1, 1, 0, 0).when(),
        Err(WhenError::InvalidDate { year: 10000, month: 1, day: 1 })
    );
}

#[test]
fn time_out_of_the_clock_is_rejected() {
    assert_eq!(
        entry(2025, 4, 25, 24, 0).when(),
        Err(WhenError::InvalidTime { hour: 24, minute: 0 })
    );
    assert_eq!(
        entry(2025, 4, 25, 0, 60).when(),
        Err(WhenError::InvalidTime { hour: 0, minute: 60 })
    );
    assert_eq!(WhenError::InvalidTime { hour: 0, minute: 60 }.message(), "invalid time: 00:60");
}

#[test]
fn event_resolves_to_its_time_on_the_minute() {
    let event = CelestialEvent {
        phenomenon: Phenomenon::Setting,
        time: ClockTime { hour: 23, minute: 59 },
    };
    assert_eq!(event.when(), Ok(TimeOfDay { hour: 23, minute: 59, second: 0 }));
    let late = CelestialEvent {
        phenomenon: Phenomenon::Rise,
        time: ClockTime { hour: 25, minute: 0 },
    };
    assert_eq!(late.when(), Err(WhenError::InvalidTime { hour: 25, minute: 0 }));
}

#[test]
fn day_resolves_to_midnight_at_its_own_offset() {
    assert_eq!(
        day_record(2025, 4, 25, -6, 0).when(),
        Ok(ZonedDateTime {
            date: CalendarDate { year: 2025, month: 4, day: 25 },
            time: midnight(),
            offset: Offset { hours: -6, minutes: 0, seconds: 0 },
        })
    );
    assert_eq!(
        day_record(2025, 4, 25, 5, 30).when(),
        Ok(ZonedDateTime {
            date: CalendarDate { year: 2025, month: 4, day: 25 },
            time: midnight(),
            offset: Offset { hours: 5, minutes: 30, seconds: 0 },
        })
    );
}

#[test]
fn day_does_not_look_at_its_phases_or_events() {
    let record = day_record(2025, 4, 25, 0, 0);
    assert!(record.closest_phase.when().is_err());
    assert_eq!(
        record.when(),
        Ok(ZonedDateTime {
            date: CalendarDate { year: 2025, month: 4, day: 25 },
            time: midnight(),
            offset: Offset { hours: 0, minutes: 0, seconds: 0 },
        })
    );
}

#[test]
fn offset_that_is_none_falls_back_to_utc() {
    let utc = Offset { hours: 0, minutes: 0, seconds: 0 };
    assert_eq!(TzOffset { hours: 26, minutes: 0 }.resolve(), utc);
    assert_eq!(TzOffset { hours: -26, minutes: 0 }.resolve(), utc);
    assert_eq!(TzOffset { hours: 127, minutes: 0 }.resolve(), utc);
    assert_eq!(TzOffset { hours: 1, minutes: 60 }.resolve(), utc);
    assert_eq!(TzOffset { hours: -1, minutes: -60 }.resolve(), utc);
    assert_eq!(TzOffset { hours: 5, minutes: -30 }.resolve(), utc);
    assert_eq!(TzOffset { hours: -5, minutes: 30 }.resolve(), utc);
    assert!(day_record(2025, 4, 25, 100, 0).when().is_ok());
    assert_eq!(day_record(2025, 4, 25, 100, 0).when().unwrap().offset, utc);
}

#[test]
fn offset_within_range_is_kept() {
    assert_eq!(
        TzOffset { hours: 25, minutes: 59 }.resolve(),
        Offset { hours: 25, minutes: 59, seconds: 0 }
    );
    assert_eq!(
        TzOffset { hours: -25, minutes: -59 }.resolve(),
        Offset { hours: -25, minutes: -59, seconds: 0 }
    );
    assert_eq!(
        TzOffset { hours: 0, minutes: -30 }.resolve(),
        Offset { hours: 0, minutes: -30, seconds: 0 }
    );
    assert_eq!(
        TzOffset { hours: -6, minutes: -30 }.resolve(),
        Offset { hours: -6, minutes: -30, seconds: 0 }
    );
    assert_eq!(
        TzOffset { hours: -5, minutes: -30 }.resolve(),
        Offset { hours: -5, minutes: -30, seconds: 0 }
    );
}

#[test]
fn dates_are_those_of_the_time_crate() {
    for year in [0u16, 1, 4, 100, 400, 1900, 2000, 2023, 2024, 2025, 2100, 9999, 10000, 65535] {
        for month in 0u8..=14 {
            for day in 0u8..=33 {
                let ours = entry(year, month, day, 0, 0).when();
                let theirs = time::Month::try_from(month)
                    .ok()
                    .map(|m| time::Date::from_calendar_date(year as i32, m, day));
                match theirs {
                    None => assert_eq!(ours, Err(WhenError::InvalidMonth { month })),
                    Some(Err(_)) => {
                        assert_eq!(ours, Err(WhenError::InvalidDate { year, month, day }))
                    }
                    Some(Ok(date)) => {
                        let found = ours.unwrap().date;
                        assert_eq!(found, CalendarDate { year: year as i32, month, day });
                        assert_eq!(date.year(), found.year);
                        assert_eq!(u8::from(date.month()), found.month);
                        assert_eq!(date.day(), found.day);
                    }
                }
            }
        }
    }
}

#[test]
fn times_are_those_of_the_time_crate() {
    for hour in 0u8..=255 {
        for minute in 0u8..=255 {
            let event = CelestialEvent {
                phenomenon: Phenomenon::Apex,
                time: ClockTime { hour, minute },
            };
            match time::Time::from_hms(hour, minute, 0) {
                Ok(theirs) => {
                    let ours = event.when().unwrap();
                    assert_eq!(ours, TimeOfDay { hour, minute, second: 0 });
                    assert_eq!(theirs.as_hms(), (ours.hour, ours.minute, ours.second));
                }
                Err(_) => assert_eq!(event.when(), Err(WhenError::InvalidTime { hour, minute })),
            }
        }
    }
}

#[test]
fn offsets_are_those_of_the_time_crate_where_signs_agree() {
    for hours in i8::MIN..=i8::MAX {
        for minutes in i8::MIN..=i8::MAX {
            let ours = TzOffset { hours, minutes }.resolve();
            let opposed = (hours > 0 && minutes < 0) || (hours < 0 && minutes > 0);
            if opposed {
                assert_eq!(ours, Offset { hours: 0, minutes: 0, seconds: 0 });
            } else {
                let theirs = time::UtcOffset::from_hms(hours, minutes, 0)
                    .unwrap_or(time::UtcOffset::UTC)
                    .as_hms();
                assert_eq!((ours.hours, ours.minutes, ours.seconds), theirs);
            }
        }
    }
}

#[test]
fn leap_years_are_those_of_the_time_crate() {
    for year in 0u16..=9999 {
        let ours = entry(year, 2, 29, 0, 0).when();
        if time::util::is_leap_year(year as i32) {
            assert_eq!(ours.unwrap().date, CalendarDate { year: year as i32, month: 2, day: 29 });
        } else {
            assert_eq!(ours, Err(WhenError::InvalidDate { year, month: 2, day: 29 }));
        }
        assert!(entry(year, 2, 28, 0, 0).when().is_ok());
        assert!(entry(year, 12, 31, 0, 0).when().is_ok());
    }
}
