use powertoys_roulette::wheel::{Wheel, WheelItem, DEFAULT_ITEM_COUNT};

#[test]
fn default_items_are_the_catalog_in_order() {
    let items = Wheel::default_items();
    assert_eq!(items.len(), 17);
    assert_eq!(DEFAULT_ITEM_COUNT, 17);
    assert_eq!(items[0].name, "Notepad");
    assert_eq!(items[0].executable, "notepad.exe");
    assert_eq!(items[3].name, "Explorer");
    assert_eq!(items[4].executable, "cmd.exe");
    assert_eq!(items[8].name, "PowerShell");
    assert_eq!(items[9].name, "Character Map");
    assert_eq!(
        items[16].executable,
        "C:\\Users\\crloewen\\AppData\\Local\\PowerToys\\Tools\\PowerToys.StylesReportTool.exe"
    );
    for (i, item) in items.iter().enumerate() {
        assert_eq!(item.color.index, i);
        assert_eq!(item.color.total, 17);
    }
}

#[test]
fn new_wheel_holds_default_items() {
    let wheel = Wheel::new();
    let defaults = Wheel::default_items();
    assert_eq!(wheel.items().len(), defaults.len());
    for (a, b) in wheel.items().iter().zip(defaults.iter()) {
        assert_eq!(a.name, b.name);
        assert_eq!(a.executable, b.executable);
    }
    let default_wheel = Wheel::default();
    assert_eq!(default_wheel.items()[11].name, "PowerToys Settings");
}

#[test]
fn with_items_reads_back_the_items() {
    let items = vec![
        WheelItem::new("A", "a.exe", 0, 2),
        WheelItem::new("B", "b.exe", 1, 2),
    ];
    let wheel = Wheel::with_items(items);
    assert_eq!(wheel.items().len(), 2);
    assert_eq!(wheel.items()[0].name, "A");
    assert_eq!(wheel.items()[1].executable, "b.exe");
    assert_eq!(wheel.items()[1].color.index, 1);
    assert_eq!(wheel.items()[1].color.total, 2);
}

#[test]
fn empty_wheel_has_no_items() {
    let wheel = Wheel::with_items(Vec::new());
    assert!(wheel.items().is_empty());
}

#[test]
fn pick_returns_item_at_index() {
    let wheel = Wheel::new();
    assert_eq!(wheel.pick(2).name, "Paint");
    assert_eq!(wheel.pick(16).name, "Styles Report Tool");
}

#[test]
fn spin_lands_on_an_item_of_the_wheel() {
    let wheel = Wheel::new();
    for _ in 0..200 {
        let item = wheel.spin();
        assert!(wheel.items().iter().any(|i| i.name == item.name && i.executable == item.executable));
    }
    let single = Wheel::with_items(vec![WheelItem::new("Only", "only.exe", 0, 1)]);
    for _ in 0..20 {
        assert_eq!(single.spin().name, "Only");
    }
}

#[test]
fn spin_reaches_more_than_one_item() {
    let wheel = Wheel::new();
    let first = wheel.spin().name.clone();
    let mut other = false;
    for _ in 0..500 {
        if wheel.spin().name != first {
            other = true;
        }
    }
    assert!(other);
}

#[test]
fn segment_offsets_wrap_around() {
    let wheel = Wheel::new();
    assert_eq!(wheel.segment_for_offset(0), 0);
    assert_eq!(wheel.segment_for_offset(16), 16);
    assert_eq!(wheel.segment_for_offset(17), 0);
    assert_eq!(wheel.segment_for_offset(20), 3);
    assert_eq!(wheel.segment_for_offset(usize::MAX), usize::MAX % 17);
}
