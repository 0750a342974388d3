use melors::model::RepeatMode;

#[test]
fn repeat_mode_round_trips_through_the_database_value() {
    for m in [RepeatMode::Off, RepeatMode::RepeatOne, RepeatMode::RepeatAll] {
        assert_eq!(RepeatMode::from_db_value(m.as_db_value()), m);
    }
    assert_eq!(RepeatMode::Off.as_db_value(), 0);
    assert_eq!(RepeatMode::RepeatOne.as_db_value(), 1);
    assert_eq!(RepeatMode::RepeatAll.as_db_value(), 2);
    assert_eq!(RepeatMode::from_db_value(7), RepeatMode::Off);
    assert_eq!(RepeatMode::from_db_value(-1), RepeatMode::Off);
}

#[test]
fn repeat_mode_cycles_with_period_three() {
    let mut m = RepeatMode::Off;
    let seen: Vec<&str> = (0..4)
        .map(|_| {
            let l = m.label();
            m = m.cycle();
            l
        })
        .collect();
    assert_eq!(seen, vec!["Off", "One", "All", "Off"]);
    assert_eq!(RepeatMode::Off.cycle().cycle().cycle(), RepeatMode::Off);
}
