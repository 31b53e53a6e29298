use daily_rotation_logs::channel::NonBlockingQueue;
use daily_rotation_logs::date::Date;
use daily_rotation_logs::rotation::RotatingFileSink;

#[test]
fn stamp_is_zero_padded_rfc_date() {
    let d = Date { year: 2025, month: 1, day: 5 };
    assert_eq!(d.format_stamp(), "2025-01-05");
    let e = Date { year: 7, month: 11, day: 9 };
    assert_eq!(e.format_stamp(), "0007-11-09");
}

#[test]
fn next_day_crosses_month_year_and_leap_boundaries() {
    let plain = Date { year: 2025, month: 4, day: 30 };
    assert_eq!(plain.next_day(), Date { year: 2025, month: 5, day: 1 });
    let year_end = Date { year: 2023, month: 12, day: 31 };
    assert_eq!(year_end.next_day(), Date { year: 2024, month: 1, day: 1 });
    let leap = Date { year: 2024, month: 2, day: 28 };
    assert_eq!(leap.next_day(), Date { year: 2024, month: 2, day: 29 });
    let non_leap = Date { year: 2023, month: 2, day: 28 };
    assert_eq!(non_leap.next_day(), Date { year: 2023, month: 3, day: 1 });
    let century = Date { year: 1900, month: 2, day: 28 };
    assert_eq!(century.next_day(), Date { year: 1900, month: 3, day: 1 });
    let quadricentennial = Date { year: 2000, month: 2, day: 28 };
    assert_eq!(quadricentennial.next_day(), Date { year: 2000, month: 2, day: 29 });
}

#[test]
fn day_d_and_day_d_plus_one_write_to_their_own_files() {
    let day_d = Date { year: 2025, month: 3, day: 31 };
    let mut sink = RotatingFileSink::new(String::from("my_app.log"), day_d);
    assert!(!sink.rotates(day_d));
    assert_eq!(sink.file_name_for(day_d), "my_app.log.2025-03-31");
    let day_d1 = day_d.next_day();
    assert!(sink.rotates(day_d1));
    assert_eq!(sink.file_name_for(day_d1), "my_app.log.2025-04-01");
    assert!(!sink.rotates(day_d1));
}

#[test]
fn burst_then_guard_drop_keeps_only_the_drained_prefix() {
    let mut q = NonBlockingQueue::new(8);
    assert!(q.enqueue(String::from("line 1")));
    assert!(q.enqueue(String::from("line 2")));
    assert!(q.enqueue(String::from("line 3")));
    q.drain_one();
    q.drain_one();
    q.destroy_guard();
    q.abandon_rest();
    assert_eq!(q.delivered_len(), 2);
    assert!(q.delivered_len() <= 3);
    assert_eq!(q.delivered_at(0).as_str(), "line 1");
    assert_eq!(q.delivered_at(1).as_str(), "line 2");
    assert_eq!(q.buffered_len(), 0);
    // The closed channel refuses further lines and counts them dropped.
    let dropped_before = q.dropped_lines();
    assert!(!q.enqueue(String::from("too late")));
    assert_eq!(q.dropped_lines(), dropped_before + 1);
    assert_eq!(q.delivered_len(), 2);
    assert_eq!(q.buffered_len(), 0);
}

#[test]
fn full_channel_drops_the_offered_line_and_counts_it() {
    let mut q = NonBlockingQueue::new(2);
    assert!(q.enqueue(String::from("a")));
    assert!(q.enqueue(String::from("b")));
    assert!(!q.enqueue(String::from("c")));
    assert_eq!(q.dropped_lines(), 1);
    q.drain_one();
    assert!(q.enqueue(String::from("d")));
    q.drain_one();
    q.drain_one();
    assert_eq!(q.delivered_len(), 3);
    assert_eq!(q.delivered_at(0).as_str(), "a");
    assert_eq!(q.delivered_at(1).as_str(), "b");
    assert_eq!(q.delivered_at(2).as_str(), "d");
}

#[test]
fn worker_delivers_in_arrival_order() {
    let mut q = NonBlockingQueue::new(16);
    for i in 0..5 {
        assert!(q.enqueue(format!("record {}", i)));
    }
    for _ in 0..5 {
        q.drain_one();
    }
    for i in 0..5 {
        assert_eq!(q.delivered_at(i), &format!("record {}", i));
    }
    q.destroy_guard();
    q.abandon_rest();
    assert_eq!(q.delivered_len(), 5);
}
