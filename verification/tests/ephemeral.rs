use ephemeropt::EphemeralOption;
use std::time::{Duration, Instant};

const MS: u128 = 1_000_000;

fn wait_past(d: Duration) {
    let start = Instant::now();
    while start.elapsed() <= d {}
}

#[test]
fn general_test() {
    // The clock of each option counts nanoseconds since the option was made;
    // the `_at` calls play the part of a mock clock that is advanced by hand.
    let opt = EphemeralOption::new("hello", Duration::from_secs(1));
    assert_eq!(opt.get_at(0), Some(&"hello"));
    // Have to advance the clock just past the time for tests to work
    assert_eq!(opt.get_at(1001 * MS), None);
    assert_eq!(opt.get_expired(), Some(&"hello"));

    let mut opt = EphemeralOption::new(3, Duration::from_millis(500));
    let mut now = 501 * MS;

    assert_eq!(opt.take_at(now), None);
    opt.insert_at(2, now);
    {
        let num = opt.get_mut_at(now).unwrap();
        *num = 1;
    }
    assert_eq!(opt.get_at(now), Some(&1));
    now += 501 * MS;
    {
        let num = opt.get_mut_expired().unwrap();
        *num = 2;
    }
    opt.reset_timer_at(now);
    assert_eq!(opt.replace_at(3, now), Some(2));
    assert_eq!(opt.get_or_insert_at(0, now), &mut 3);
}

#[test]
fn new_holds_value_until_its_time_runs_out() {
    let opt = EphemeralOption::new("Hello, World!", Duration::from_secs(2));
    assert_eq!(opt.get_at(0), Some(&"Hello, World!"));
    assert_eq!(opt.get_at(2000 * MS), Some(&"Hello, World!"));
    assert_eq!(opt.get_at(2000 * MS + 1), None);
    assert_eq!(opt.get_expired(), Some(&"Hello, World!"));
}

#[test]
fn max_time_is_counted_in_nanoseconds() {
    let opt = EphemeralOption::new(7u8, Duration::new(1, 250));
    assert_eq!(opt.get_at(1_000_000_250), Some(&7));
    assert_eq!(opt.get_at(1_000_000_251), None);
}

#[test]
fn new_empty_holds_nothing() {
    let mut opt: EphemeralOption<()> = EphemeralOption::new_empty(Duration::from_secs(2));
    assert_eq!(opt.get_at(0), None);
    assert_eq!(opt.get_expired(), None);
    assert_eq!(opt.get_mut_at(0), None);
    assert_eq!(opt.get_mut_expired(), None);
    assert_eq!(opt.take_at(0), None);
}

#[test]
fn empty_option_is_not_some_on_get() {
    let opt: EphemeralOption<u32> = EphemeralOption::new_empty(Duration::from_secs(60));
    assert_eq!(opt.get(), None);
    assert_eq!(opt.into_option(), None);
}

#[test]
fn get_reads_the_clock() {
    let opt = EphemeralOption::new(3, Duration::from_secs(60));
    assert_eq!(opt.get(), Some(&3));
    let short = EphemeralOption::new(3, Duration::from_nanos(1));
    wait_past(Duration::from_millis(1));
    assert_eq!(short.get(), None);
    assert_eq!(short.get_expired(), Some(&3));
}

#[test]
fn get_mut_changes_the_value() {
    let mut opt = EphemeralOption::new("hello", Duration::from_secs(2));
    let val = opt.get_mut_at(0).unwrap();
    assert_eq!(val, &mut "hello");
    *val = "world";
    assert_eq!(val, &mut "world");
    assert_eq!(opt.get_at(1), Some(&"world"));
    assert_eq!(opt.get_mut_at(2001 * MS), None);
    assert_eq!(opt.get_expired(), Some(&"world"));
}

#[test]
fn get_mut_with_clock() {
    let mut opt = EphemeralOption::new(10, Duration::from_secs(60));
    *opt.get_mut().unwrap() += 1;
    assert_eq!(opt.get(), Some(&11));
    let mut short = EphemeralOption::new(10, Duration::from_nanos(1));
    wait_past(Duration::from_millis(1));
    assert_eq!(short.get_mut(), None);
}

#[test]
fn unchecked_access_ignores_expiry() {
    let mut opt = EphemeralOption::new(4, Duration::from_millis(1));
    assert_eq!(opt.get_mut_at(5 * MS), None);
    assert_eq!(*opt.get_unchecked(), 4);
    *opt.get_mut_unchecked() = 5;
    assert_eq!(*opt.get_unchecked(), 5);
    assert_eq!(opt.get_at(5 * MS), None);
}

#[test]
fn insert_overwrites_and_restarts_the_timer() {
    let mut opt = EphemeralOption::new("hello", Duration::from_secs(2));
    assert_eq!(opt.insert_at("world", 3000 * MS), &mut "world");
    assert_eq!(opt.get_at(3000 * MS), Some(&"world"));
    assert_eq!(opt.get_at(5000 * MS), Some(&"world"));
    assert_eq!(opt.get_at(5000 * MS + 1), None);
}

#[test]
fn insert_with_clock() {
    let mut opt = EphemeralOption::new("hello", Duration::from_secs(60));
    opt.insert("world");
    assert_eq!(opt.get(), Some(&"world"));
}

#[test]
fn get_or_insert_keeps_a_live_value() {
    let mut opt = EphemeralOption::new(1, Duration::from_secs(1));
    assert_eq!(opt.get_or_insert_at(2, 500 * MS), &mut 1);
    assert_eq!(opt.get_at(1000 * MS), Some(&1));
}

#[test]
fn get_or_insert_replaces_an_expired_value() {
    let mut opt = EphemeralOption::new(1, Duration::from_secs(1));
    assert_eq!(opt.get_or_insert_at(2, 1500 * MS), &mut 2);
    assert_eq!(opt.get_at(2500 * MS), Some(&2));
    assert_eq!(opt.get_at(2500 * MS + 1), None);
}

#[test]
fn get_or_insert_fills_an_empty_option() {
    let mut opt = EphemeralOption::new_empty(Duration::from_secs(1));
    assert_eq!(opt.get_or_insert_at(9, 0), &mut 9);
    let mut other = EphemeralOption::new_empty(Duration::from_secs(60));
    assert_eq!(other.get_or_insert(8), &mut 8);
    assert_eq!(other.get_or_insert(7), &mut 8);
}

#[test]
fn take_leaves_the_option_empty() {
    let mut opt = EphemeralOption::new(5, Duration::from_secs(2));
    let num = opt.take();
    assert_eq!(num, Some(5));
    assert_eq!(opt.take(), None);
    assert_eq!(opt.get_expired(), None);
}

#[test]
fn take_drops_an_expired_value() {
    let mut opt = EphemeralOption::new(5, Duration::from_secs(2));
    assert_eq!(opt.take_at(2001 * MS), None);
    assert_eq!(opt.get_expired(), None);
}

#[test]
fn replace_returns_the_live_value() {
    let mut opt = EphemeralOption::new(3.14, Duration::from_secs(2));
    let num = opt.replace(2.718);
    assert_eq!(num, Some(3.14));
    assert_eq!(opt.get(), Some(&2.718));
}

#[test]
fn replace_drops_an_expired_value() {
    let mut opt = EphemeralOption::new(3, Duration::from_secs(2));
    assert_eq!(opt.replace_at(4, 3000 * MS), None);
    assert_eq!(opt.get_at(3000 * MS), Some(&4));
    let mut empty = EphemeralOption::new_empty(Duration::from_secs(2));
    assert_eq!(empty.replace_at(1, 0), None);
    assert_eq!(empty.get_at(0), Some(&1));
}

#[test]
fn reset_timer_revives_an_expired_value() {
    let mut opt = EphemeralOption::new(3, Duration::from_secs(2));
    assert_eq!(opt.get_at(2001 * MS), None);
    opt.reset_timer_at(2001 * MS);
    assert_eq!(opt.get_at(2001 * MS), Some(&3));
    assert_eq!(opt.get_at(4001 * MS), Some(&3));
    assert_eq!(opt.get_at(4001 * MS + 1), None);
}

#[test]
fn reset_timer_after_marked_expired() {
    let mut opt = EphemeralOption::new(3, Duration::from_secs(2));
    assert_eq!(opt.get_mut_at(2001 * MS), None);
    opt.reset_timer_at(2500 * MS);
    assert_eq!(opt.get_at(2500 * MS), Some(&3));
}

#[test]
fn reset_timer_with_clock() {
    let mut opt = EphemeralOption::new(3, Duration::from_millis(1));
    wait_past(Duration::from_millis(2));
    assert_eq!(opt.get(), None);
    opt.reset_timer();
    let mut fresh = EphemeralOption::new(6, Duration::from_secs(60));
    fresh.reset_timer();
    assert_eq!(fresh.get(), Some(&6));
}

#[test]
fn reset_timer_of_empty_stays_empty() {
    let mut opt: EphemeralOption<u8> = EphemeralOption::new_empty(Duration::from_secs(2));
    opt.reset_timer_at(10);
    assert_eq!(opt.get_at(10), None);
}

#[test]
fn into_option_respects_expiry() {
    let opt = EphemeralOption::new(vec![1, 2], Duration::from_secs(1));
    assert_eq!(opt.into_option_at(1000 * MS), Some(vec![1, 2]));
    let opt = EphemeralOption::new(vec![1, 2], Duration::from_secs(1));
    assert_eq!(opt.into_option_at(1000 * MS + 1), None);
    let opt = EphemeralOption::new(1, Duration::from_secs(60));
    assert_eq!(opt.into_option(), Some(1));
}

#[test]
fn expiry_is_permanent_until_reset() {
    let opt = EphemeralOption::new('x', Duration::from_millis(10));
    assert_eq!(opt.get_at(11 * MS), None);
    assert_eq!(opt.get_at(12 * MS), None);
    assert_eq!(opt.get_at(1_000_000 * MS), None);
}

#[test]
fn reading_the_clock_does_not_change_later_reads() {
    let mut opt = EphemeralOption::new('x', Duration::from_millis(10));
    assert_eq!(opt.get_mut_at(5 * MS), Some(&mut 'x'));
    assert_eq!(opt.get_at(10 * MS), Some(&'x'));
    assert_eq!(opt.get_mut_at(11 * MS), None);
    assert_eq!(opt.get_at(11 * MS), None);
    assert_eq!(opt.get_expired(), Some(&'x'));
}

#[test]
fn zero_lifetime_lives_only_at_its_start() {
    let opt = EphemeralOption::new(0u8, Duration::ZERO);
    assert_eq!(opt.get_at(0), Some(&0));
    assert_eq!(opt.get_at(1), None);
}

#[test]
fn earlier_time_than_start_counts_as_no_time() {
    let mut opt = EphemeralOption::new_empty(Duration::from_millis(1));
    opt.insert_at(1, 50 * MS);
    assert_eq!(opt.get_at(10 * MS), Some(&1));
}

#[test]
fn new_empty_starts_its_clock_on_first_store() {
    let mut opt = EphemeralOption::new_empty(Duration::from_secs(60));
    assert_eq!(opt.get(), None);
    opt.insert(5);
    assert_eq!(opt.get(), Some(&5));
    let mut short = EphemeralOption::new_empty(Duration::from_nanos(1));
    short.insert(5);
    wait_past(Duration::from_millis(1));
    assert_eq!(short.get(), None);
    assert_eq!(short.get_expired(), Some(&5));
}

#[test]
fn value_lives_exactly_while_at_most_its_lifetime_has_passed() {
    let opt = EphemeralOption::new(3, Duration::from_millis(500));
    assert_eq!(opt.get_at(500 * MS), Some(&3));
    assert_eq!(opt.get_at(500 * MS + 1), None);
}

#[test]
fn keeping_a_live_value_does_not_restart_its_timer() {
    let mut opt = EphemeralOption::new(1, Duration::from_millis(500));
    assert_eq!(*opt.get_or_insert_at(9, 300 * MS), 1);
    assert_eq!(opt.get_at(600 * MS), None);
    let mut other = EphemeralOption::new(1, Duration::from_millis(500));
    *other.get_mut_at(0).unwrap() = 2;
    assert_eq!(other.get_at(501 * MS), None);
    assert_eq!(other.get_expired(), Some(&2));
}

#[test]
fn expiry_lasts_through_reads() {
    let mut opt = EphemeralOption::new(1, Duration::from_millis(500));
    assert_eq!(opt.get_at(600 * MS), None);
    assert_eq!(opt.get_mut_at(650 * MS), None);
    *opt.get_mut_expired().unwrap() = 7;
    assert_eq!(opt.get_expired(), Some(&7));
    assert_eq!(opt.get_at(700 * MS), None);
    assert_eq!(opt.get_mut_at(10_000 * MS), None);
    assert_eq!(opt.get_expired(), Some(&7));
}

#[test]
fn get_expired_changes_nothing() {
    let run = |peek: bool| {
        let mut opt = EphemeralOption::new(1, Duration::from_millis(500));
        let mut seen = Vec::new();
        if peek {
            assert_eq!(opt.get_expired(), Some(&1));
        }
        seen.push(opt.get_at(100 * MS).copied());
        if peek {
            assert_eq!(opt.get_expired(), Some(&1));
        }
        seen.push(opt.take_at(600 * MS));
        if peek {
            assert_eq!(opt.get_expired(), None);
        }
        seen.push(opt.replace_at(2, 700 * MS));
        seen.push(opt.get_at(800 * MS).copied());
        seen
    };
    assert_eq!(run(false), run(true));
    assert_eq!(run(false), vec![Some(1), None, None, Some(2)]);
}

#[test]
fn unstarted_clock_reads_zero() {
    let mut opt = EphemeralOption::new_empty(Duration::from_nanos(1));
    opt.insert_at(1, 0);
    wait_past(Duration::from_millis(1));
    assert_eq!(opt.get(), Some(&1));
    opt.reset_timer();
    wait_past(Duration::from_millis(1));
    assert_eq!(opt.get(), None);
    assert_eq!(opt.get_expired(), Some(&1));
}
