use synthui::ui::param::Param;
use synthui::ui::{Action, Input, Notification};

// Values are carried in hundredths of a unit: 44000 displays as 440.00.
fn freq() -> Param {
    Param::new("freq".to_string(), 44000, 1000, 2000, 2000000)
}

#[test]
fn scenario_b_left_then_two_rights() {
    // Param(name = "freq", value = 440.00, step = 10.00, min = 20.00,
    // max = 20000.00). Left: value 430.00, one set("freq", 430.00).
    let mut p = freq();
    let mut out: Vec<Notification> = Vec::new();
    let r = p.handle(Input::Left, &mut out);
    assert!(r.is_none());
    assert_eq!(p.value, 43000);
    assert_eq!(out, vec![Notification::SetValue { name: "freq".to_string(), value: 43000 }]);

    // [Right, Right]: value 450.00, two sets carrying 440.00 then 450.00.
    let mut out2: Vec<Notification> = Vec::new();
    p.handle(Input::Right, &mut out2);
    p.handle(Input::Right, &mut out2);
    assert_eq!(p.value, 45000);
    assert_eq!(out2, vec![
        Notification::SetValue { name: "freq".to_string(), value: 44000 },
        Notification::SetValue { name: "freq".to_string(), value: 45000 },
    ]);
}

#[test]
fn press_leaves_editor_silently() {
    let mut p = freq();
    let mut out: Vec<Notification> = Vec::new();
    let r = p.handle(Input::Press, &mut out);
    assert_eq!(r, Some(Action::Pop));
    assert_eq!(p.value, 44000);
    assert!(out.is_empty());
}

#[test]
fn increments_clamp_at_max() {
    // After k increments from v0, value = min(v0 + k * step, max).
    let mut p = Param::new("cut".to_string(), 700, 200, 0, 1000);
    let mut out: Vec<Notification> = Vec::new();
    p.handle(Input::Right, &mut out);
    assert_eq!(p.value, 900);
    p.handle(Input::Right, &mut out);
    assert_eq!(p.value, 1000);
    p.handle(Input::Right, &mut out);
    assert_eq!(p.value, 1000);
    assert_eq!(out.last(), Some(&Notification::SetValue { name: "cut".to_string(), value: 1000 }));
}

#[test]
fn decrements_clamp_at_min() {
    // After k decrements from v0, value = max(v0 - k * step, min).
    let mut p = Param::new("cut".to_string(), 300, 200, 0, 1000);
    let mut out: Vec<Notification> = Vec::new();
    p.dec();
    assert_eq!(p.value, 100);
    p.dec();
    assert_eq!(p.value, 0);
    p.dec();
    assert_eq!(p.value, 0);
    assert!(out.is_empty());
}

#[test]
fn inc_dec_are_direct_mutations() {
    let mut p = freq();
    p.inc();
    assert_eq!(p.value, 45000);
    p.dec();
    p.dec();
    assert_eq!(p.value, 43000);
}

#[test]
fn send_appends_one_notification() {
    let p = freq();
    let mut out: Vec<Notification> = vec![Notification::Stop];
    p.send(&mut out);
    assert_eq!(out, vec![
        Notification::Stop,
        Notification::SetValue { name: "freq".to_string(), value: 44000 },
    ]);
}
