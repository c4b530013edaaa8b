use baru::module::{ModuleData, ModuleExit, ModuleState};
use baru::modules::battery::Config as BatteryConfig;
use baru::modules::date_time::Config as DateTimeConfig;
use baru::{Baru, Config, ModuleMsg};

fn config(format: &str) -> Config {
    Config {
        format: format.to_string(),
        tick: None,
        failed_icon: None,
        pulse_tick: None,
        battery: None,
        brightness: None,
        cpu_usage: None,
        cpu_freq: None,
        date_time: None,
        memory: None,
        mic: None,
        sound: None,
        temperature: None,
        weather: None,
        wired: None,
        wireless: None,
    }
}

fn msg(key: char, value: &str, label: &str) -> ModuleMsg {
    ModuleMsg(key, Some(value.to_string()), Some(label.to_string()))
}

#[test]
fn end_to_end_scenario() {
    let config = config("%a cpu:%c");
    let mut bar = Baru::with_config(&config).unwrap();
    assert!(bar.is_wf());
    bar.start();
    assert!(bar.is_wf());
    let line = bar.update(&vec![], &vec![]).unwrap();
    assert!(bar.is_wf());
    assert_eq!(line, "- cpu:-");
    let messages = vec![msg('a', "85%", "bat"), msg('c', "12%", "cpu")];
    let line = bar.update(&vec![], &messages).unwrap();
    assert_eq!(line, "bat:85% cpu:cpu:12%");
    let line = bar.update(&vec![], &vec![]).unwrap();
    assert_eq!(line, "bat:85% cpu:cpu:12%");
}

#[test]
fn unknown_key_fails_construction() {
    let config = config("%a %z %y");
    let err = Baru::with_config(&config).err().unwrap();
    assert_eq!(err.to_string(), "unknown markup \"z\"");
}

#[test]
fn template_without_markers() {
    let config = config("plain \\% text");
    let mut bar = Baru::with_config(&config).unwrap();
    assert!(bar.modules().is_empty());
    assert_eq!(bar.update(&vec![], &vec![]).unwrap(), "plain % text");
}

#[test]
fn module_names_in_template_order() {
    let config = config("%w%a%c%d%e%f%i%m%r%s%t%b");
    let bar = Baru::with_config(&config).unwrap();
    assert_eq!(
        bar.modules(),
        vec![
            "wireless",
            "battery",
            "cpu_usage",
            "date_time",
            "wired",
            "cpu_freq",
            "mic",
            "memory",
            "weather",
            "sound",
            "temperature",
            "brightness"
        ]
    );
}

#[test]
fn latest_message_wins() {
    let config = config("[%a]");
    let mut bar = Baru::with_config(&config).unwrap();
    bar.start();
    let messages = vec![
        msg('a', "1%", "bat"),
        msg('a', "2%", "bat"),
        msg('a', "3%", "^ba"),
    ];
    assert_eq!(bar.update(&vec![], &messages).unwrap(), "[^ba:3%]");
    let only_last = vec![msg('a', "3%", "^ba")];
    let mut other = Baru::with_config(&config).unwrap();
    other.start();
    assert_eq!(other.update(&vec![], &only_last).unwrap(), "[^ba:3%]");
}

#[test]
fn absent_value_and_label_are_empty() {
    let config = config("%a|%e");
    let mut bar = Baru::with_config(&config).unwrap();
    let messages = vec![
        ModuleMsg('a', None, Some("bat".to_string())),
        ModuleMsg('e', None, None),
    ];
    assert_eq!(bar.update(&vec![], &messages).unwrap(), "bat:|");
}

#[test]
fn failed_module_is_frozen_and_others_go_on() {
    let config = config("%a %c");
    let mut bar = Baru::with_config(&config).unwrap();
    bar.start();
    let line = bar
        .update(&vec![Some(ModuleExit::Failed), None], &vec![msg('c', "5%", "cpu")])
        .unwrap();
    assert_eq!(line, "a:✗ cpu:5%");
    assert_eq!(bar.cell(0).unwrap().state(), ModuleState::Failed);
    assert_eq!(bar.cell(1).unwrap().state(), ModuleState::Running);
    let line = bar
        .update(&vec![], &vec![msg('a', "50%", "bat"), msg('c', "6%", "cpu")])
        .unwrap();
    assert_eq!(line, "a:✗ cpu:6%");
    let line = bar
        .update(&vec![Some(ModuleExit::Returned), Some(ModuleExit::Panicked)], &vec![])
        .unwrap();
    assert_eq!(line, "a:✗ c:✗");
    assert_eq!(bar.cell(0).unwrap().state(), ModuleState::Failed);
    assert_eq!(bar.cell(1).unwrap().state(), ModuleState::Failed);
}

#[test]
fn finished_module_keeps_its_output() {
    let config = config("%d");
    let mut bar = Baru::with_config(&config).unwrap();
    bar.start();
    bar.update(&vec![], &vec![msg('d', "noon", "")]).unwrap();
    let line = bar.update(&vec![Some(ModuleExit::Returned)], &vec![]).unwrap();
    assert_eq!(line, "noon");
    assert_eq!(bar.cell(0).unwrap().state(), ModuleState::Finished);
    assert!(bar.cell(1).is_none());
}

#[test]
fn poll_of_a_module_not_started_changes_nothing() {
    let config = config("%a");
    let mut bar = Baru::with_config(&config).unwrap();
    let line = bar.update(&vec![Some(ModuleExit::Failed)], &vec![]).unwrap();
    assert_eq!(line, "-");
    assert_eq!(bar.cell(0).unwrap().state(), ModuleState::NotStarted);
}

#[test]
fn failed_icon_from_configuration() {
    let mut config = config("%m");
    config.failed_icon = Some("!!".to_string());
    let mut bar = Baru::with_config(&config).unwrap();
    bar.start();
    let line = bar.update(&vec![Some(ModuleExit::Panicked)], &vec![]).unwrap();
    assert_eq!(line, "m:!!");
}

#[test]
fn repeated_key_has_a_cell_for_each_marker() {
    let config = config("%a-%a");
    let mut bar = Baru::with_config(&config).unwrap();
    bar.start();
    let line = bar
        .update(&vec![None, Some(ModuleExit::Failed)], &vec![msg('a', "7%", "bat")])
        .unwrap();
    assert_eq!(line, "bat:7%-a:✗");
    assert_eq!(bar.cell(0).unwrap().output(), "bat:7%");
    assert_eq!(bar.cell(1).unwrap().output(), "a:✗");
    let line = bar.update(&vec![], &vec![msg('a', "8%", "bat")]).unwrap();
    assert_eq!(line, "bat:8%-a:✗");
}

#[test]
fn each_marker_shows_its_own_cell() {
    let config = config("%a %a");
    let mut bar = Baru::with_config(&config).unwrap();
    bar.start();
    let line = bar.update(&vec![Some(ModuleExit::Failed), None], &vec![]).unwrap();
    assert_eq!(line, "a:✗ -");
    assert_eq!(bar.cell(0).unwrap().state(), ModuleState::Failed);
    assert_eq!(bar.cell(1).unwrap().state(), ModuleState::Running);
}

#[test]
fn message_without_a_cell_is_an_error() {
    let config = config("[%a]");
    let mut bar = Baru::with_config(&config).unwrap();
    bar.start();
    bar.update(&vec![], &vec![msg('a', "1%", "bat")]).unwrap();
    let messages = vec![msg('a', "2%", "bat"), msg('c', "9%", "cpu"), msg('z', "", "")];
    let err = bar.update(&vec![Some(ModuleExit::Failed)], &messages).err().unwrap();
    assert_eq!(err.to_string(), "module for key \"c\" not found");
    assert_eq!(bar.cell(0).unwrap().output(), "bat:1%");
    assert_eq!(bar.cell(0).unwrap().state(), ModuleState::Running);
    assert!(bar.is_wf());
    assert_eq!(bar.update(&vec![], &vec![]).unwrap(), "[bat:1%]");
}

#[test]
fn start_leaves_final_states() {
    let config = config("%a %c");
    let mut bar = Baru::with_config(&config).unwrap();
    bar.start();
    bar.update(&vec![Some(ModuleExit::Failed), Some(ModuleExit::Returned)], &vec![]).unwrap();
    bar.start();
    assert_eq!(bar.cell(0).unwrap().state(), ModuleState::Failed);
    assert_eq!(bar.cell(1).unwrap().state(), ModuleState::Finished);
    assert_eq!(bar.update(&vec![], &vec![]).unwrap(), "a:✗ -");
}

#[test]
fn value_and_label_are_filled_in_independently() {
    let mut config = config("");
    let mut date = DateTimeConfig {
        date_format: None,
        tick: None,
        placeholder: None,
        label: None,
        format: None,
    };
    config.date_time = Some(date.clone());
    let mut cell = ModuleData::new('d', &config).unwrap();
    assert_eq!(cell.format(), "%v");
    assert_eq!(cell.placeholder(), "-");
    assert_eq!(cell.failed_placeholder(), "d:✗");
    cell.new_data(Some("%l"), Some("x"));
    assert_eq!(cell.output(), "%l");
    cell.new_data(Some("%v"), Some("%v"));
    assert_eq!(cell.output(), "%v");
    date.format = Some("%%vl".to_string());
    let mut other = self::config("");
    other.date_time = Some(date.clone());
    let mut cell = ModuleData::new('d', &other).unwrap();
    cell.new_data(None, Some("x"));
    assert_eq!(cell.output(), "%l");
    cell.new_data(Some("v"), Some("x"));
    assert_eq!(cell.output(), "%vl");
    date.format = Some("%l%v%".to_string());
    let mut third = self::config("");
    third.date_time = Some(date);
    let mut cell = ModuleData::new('d', &third).unwrap();
    cell.new_data(Some("%"), Some("%"));
    assert_eq!(cell.output(), "%%%");
    cell.new_data(Some("a"), None);
    assert_eq!(cell.output(), "a%");
}

#[test]
fn escaped_percent_in_module_output_is_unescaped() {
    let config = config("\\%%a\\%");
    let mut bar = Baru::with_config(&config).unwrap();
    let line = bar.update(&vec![], &vec![msg('a', "\\%", "x")]).unwrap();
    assert_eq!(line, "%x:%%");
}

#[test]
fn needs_pulse_for_sound_and_mic() {
    let c1 = config("%a %s");
    let c2 = config("%i");
    let c3 = config("%a %c");
    assert!(Baru::with_config(&c1).unwrap().needs_pulse());
    assert!(Baru::with_config(&c2).unwrap().needs_pulse());
    assert!(!Baru::with_config(&c3).unwrap().needs_pulse());
}

#[test]
fn fresh_cell_shows_placeholder() {
    let mut config = config("");
    config.battery = Some(BatteryConfig {
        name: None,
        low_level: None,
        full_design: None,
        tick: None,
        placeholder: Some("...".to_string()),
        full_label: None,
        charging_label: None,
        discharging_label: None,
        low_label: None,
        unknown_label: None,
        format: Some("<%v|%l|%v>".to_string()),
    });
    let mut cell = ModuleData::new('a', &config).unwrap();
    assert_eq!(cell.output(), "...");
    assert_eq!(cell.state(), ModuleState::NotStarted);
    cell.new_data(Some("1"), Some("2"));
    assert_eq!(cell.output(), "<1|2|1>");
    cell.new_data(Some("1"), Some("2"));
    assert_eq!(cell.output(), "<1|2|1>");
    cell.new_data(Some("%l"), Some("x"));
    assert_eq!(cell.output(), "<%l|x|%l>");
    cell.start();
    assert_eq!(cell.state(), ModuleState::Running);
    cell.update_state(None);
    assert_eq!(cell.state(), ModuleState::Running);
    cell.update_state(Some(ModuleExit::Failed));
    assert_eq!(cell.output(), "a:✗");
    cell.new_data(Some("9"), None);
    assert_eq!(cell.output(), "a:✗");
    cell.start();
    assert_eq!(cell.state(), ModuleState::Failed);
    assert_eq!(cell.output(), "a:✗");
    assert!(ModuleData::new('z', &config).is_err());
}

#[test]
fn errors_carry_their_message() {
    let e = baru::error::Error::new("gone".to_string());
    assert_eq!(e.to_string(), "gone");
    let e = baru::error::Error::from("lost".to_string());
    assert_eq!(e.to_string(), "lost");
    assert_eq!(e.clone().to_string(), "lost");
    let e = baru::error::Error::from("found");
    assert_eq!(e.to_string(), "found");
}

#[test]
fn marker_next_to_text_and_to_other_markers() {
    let config = config("%a%c|%m%");
    let mut bar = Baru::with_config(&config).unwrap();
    assert_eq!(bar.update(&vec![], &vec![]).unwrap(), "--|-%");
    let messages = vec![msg('m', "1", "2"), msg('a', "x", "y"), msg('c', "", "")];
    assert_eq!(bar.update(&vec![], &messages).unwrap(), "y:x:|2:1%");
}

#[test]
fn percent_as_key_is_unknown() {
    let config = config("%%c");
    let err = Baru::with_config(&config).err().unwrap();
    assert_eq!(err.to_string(), "unknown markup \"%\"");
}

#[test]
fn template_with_wide_characters() {
    let config = config("é✗ %a ✗");
    let mut bar = Baru::with_config(&config).unwrap();
    assert_eq!(bar.update(&vec![], &vec![]).unwrap(), "é✗ - ✗");
    assert_eq!(bar.update(&vec![], &vec![msg('a', "é", "✗")]).unwrap(), "é✗ ✗:é ✗");
}

#[test]
fn more_exits_than_cells_are_ignored() {
    let config = config("%a");
    let mut bar = Baru::with_config(&config).unwrap();
    bar.start();
    let exits = vec![None, Some(ModuleExit::Failed), Some(ModuleExit::Failed)];
    assert_eq!(bar.update(&exits, &vec![]).unwrap(), "-");
    assert_eq!(bar.cell(0).unwrap().state(), ModuleState::Running);
    assert_eq!(bar.cell(0).unwrap().key(), 'a');
    assert_eq!(bar.cell(0).unwrap().name(), "battery");
    assert_eq!(bar.config().format, "%a");
}
