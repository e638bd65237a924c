use cprt_operator::drawer::{append_decimal, default_f_chart, default_r_chart, History, PlotKind, Process, ViewField};
use cprt_operator::scalar::Complex;

#[test]
fn decimal_rendering() {
    let mut s = String::new();
    append_decimal(&mut s, 0);
    assert_eq!(s, "0");
    let mut s = String::from("n = ");
    append_decimal(&mut s, 90210);
    assert_eq!(s, "n = 90210");
    let mut s = String::new();
    append_decimal(&mut s, u64::MAX);
    assert_eq!(s, "18446744073709551615");
}

#[test]
fn default_chart_descriptions() {
    let r = default_r_chart(3).unwrap();
    assert_eq!(r.name, "real domain 3");
    assert_eq!(r.kind, PlotKind::Line);
    assert_eq!(r.proc, Process::RealDomain);
    assert!(r.smart_bound);
    assert!(!r.show_history);
    let f = default_f_chart(12).unwrap();
    assert_eq!(f.name, "freq domain 12");
    assert_eq!(f.proc, Process::FreqDomain);
}

#[test]
fn plot_kind_labels() {
    assert_eq!(PlotKind::Line.desc(), "Line");
    assert_eq!(PlotKind::Points.desc(), "Points");
}

#[test]
fn view_field_starts_with_real_chart() {
    let v = ViewField::new(5);
    let chart = v.r_chart.unwrap();
    assert_eq!(chart.name, "real domain 5");
    assert_eq!(chart.kind, PlotKind::Line);
    assert!(v.f_chart.is_none());
    assert!(v.history.is_none());
    assert_eq!(v.index, 5);
}

#[test]
fn kind_selection() {
    let mut k = PlotKind::Line;
    k.controller(PlotKind::Points);
    assert_eq!(k, PlotKind::Points);
    k.controller(PlotKind::Points);
    assert_eq!(k, PlotKind::Points);
}

#[test]
fn chart_visibility_toggles() {
    let mut v = ViewField::new(2);
    assert!(v.r_chart.is_some());
    assert!(v.f_chart.is_none());
    v.show_which(true, true);
    assert!(v.r_chart.is_none());
    let f = v.f_chart.as_ref().unwrap();
    assert_eq!(f.name, "freq domain 2");
    assert_eq!(f.proc, Process::FreqDomain);
    assert!(f.smart_bound);
    assert!(!f.show_history);
    v.show_which(true, false);
    let r = v.r_chart.as_ref().unwrap();
    assert_eq!(r.name, "real domain 2");
    assert!(v.f_chart.is_some());
}

#[test]
fn history_records_states() {
    let first = vec![Complex::new(1, 2), Complex::new(3, 4)];
    let mut h = History::new(&first);
    assert_eq!(h.records.len(), 1);
    assert_eq!(h.records[0], first);
    let second = vec![Complex::new(5, 6)];
    h.push(&second);
    assert_eq!(h.records.len(), 2);
    assert_eq!(h.records[0], first);
    assert_eq!(h.records[1], second);
}

#[test]
fn logging_without_recording_changes_nothing() {
    let mut v = ViewField::new(0);
    v.log_his(&vec![Complex::new(9, 9)]);
    assert!(v.history.is_none());
}

#[test]
fn toggle_recording_on_off() {
    let mut v = ViewField::new(1);
    let data = vec![Complex::new(1, -1)];
    v.toggle_record_his(&data);
    let h = v.history.as_ref().unwrap();
    assert_eq!(h.records.len(), 1);
    assert_eq!(h.records[0], data);
    v.log_his(&data);
    assert_eq!(v.history.as_ref().unwrap().records.len(), 2);
    // Turning the recording off clears the overlay of every shown chart.
    if let Some(c) = v.r_chart.as_mut() {
        c.show_history = true;
    }
    v.toggle_record_his(&data);
    assert!(v.history.is_none());
    assert!(!v.r_chart.as_ref().unwrap().show_history);
}
