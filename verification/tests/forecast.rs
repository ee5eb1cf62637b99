use wthrr::args::Forecast;
use wthrr::forecast::{get_day_index, get_indices, Weekday};

#[test]
fn index_form_day() {
    // Test to determine the index of the current day when the current day is Monday.
    assert!(get_day_index(Weekday::Mon.number_from_monday(), Weekday::Tue) == 1);
    assert!(get_day_index(Weekday::Mon.number_from_monday(), Weekday::Wed) == 2);
    assert!(get_day_index(Weekday::Mon.number_from_monday(), Weekday::Thu) == 3);
    assert!(get_day_index(Weekday::Mon.number_from_monday(), Weekday::Fri) == 4);
    assert!(get_day_index(Weekday::Mon.number_from_monday(), Weekday::Sat) == 5);
    assert!(get_day_index(Weekday::Mon.number_from_monday(), Weekday::Sun) == 6);
    // Test to determine the index of the current day when the current day is Saturday.
    assert!(get_day_index(Weekday::Sat.number_from_monday(), Weekday::Sun) == 1);
    assert!(get_day_index(Weekday::Sat.number_from_monday(), Weekday::Mon) == 2);
    assert!(get_day_index(Weekday::Sat.number_from_monday(), Weekday::Tue) == 3);
    assert!(get_day_index(Weekday::Sat.number_from_monday(), Weekday::Wed) == 4);
    assert!(get_day_index(Weekday::Sat.number_from_monday(), Weekday::Thu) == 5);
    assert!(get_day_index(Weekday::Sat.number_from_monday(), Weekday::Fri) == 6);
    // If these work, the same principle applies to any other day.
}

#[test]
fn forecast_indices() {
    let curr_day = Weekday::Mon;
    // Test weekday forcast for same day. E.g. `-f mo` on a monday.
    assert!(get_indices(&[Forecast::mo], curr_day) == get_indices(&[Forecast::day], curr_day));
    // Test week overview combined with a weekday `-f w mo`. Should result in week overview.
    assert!(get_indices(&[Forecast::week], curr_day) == [7]);
    // Test distance from current day until requested day.
    assert!(get_indices(&[Forecast::tu, Forecast::we, Forecast::sa], curr_day) == [1, 2, 5]);
    assert!(get_indices(&[Forecast::day, Forecast::week], curr_day) == [0, 7]);
}

#[test]
fn indices_come_sorted_with_repeats_kept() {
    // Sunday: Monday is one day away, Sunday itself is today.
    assert_eq!(get_indices(&[Forecast::week, Forecast::mo, Forecast::su, Forecast::day], Weekday::Sun), vec![0, 0, 1, 7]);
    assert_eq!(get_indices(&[], Weekday::Wed), Vec::<usize>::new());
}

#[test]
fn tomorrow_is_the_next_day() {
    assert_eq!(get_indices(&[Forecast::tomorrow], Weekday::Mon), vec![1]);
    assert_eq!(get_indices(&[Forecast::week, Forecast::tomorrow, Forecast::day], Weekday::Sun), vec![0, 1, 7]);
}

#[test]
fn day_index_wraps_around_the_week() {
    assert_eq!(get_day_index(Weekday::Sun.number_from_monday(), Weekday::Sat), 6);
    assert_eq!(get_day_index(Weekday::Thu.number_from_monday(), Weekday::Thu), 0);
}

#[test]
fn week_overview_index_whatever_the_day() {
    assert_eq!(wthrr::forecast::get_forecast_indices(&[Forecast::week]), vec![7]);
    assert_eq!(wthrr::forecast::get_forecast_indices(&[Forecast::day, Forecast::week]), vec![0, 7]);
}
