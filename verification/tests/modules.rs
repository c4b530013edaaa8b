use baru::module::{Bar, Module};
use baru::modules::{
    battery, brightness, cpu_freq, cpu_usage, date_time, memory, mic, sound, temperature, weather,
    wired, wireless,
};
use baru::netlink::{
    wired_state, wireless_state, NlWiredData, WiredState, WirelessData, WirelessState,
};
use baru::pulse::{pulse_settings, tick_fits, PulseData};
use baru::Config;

fn config() -> Config {
    Config {
        format: String::new(),
        tick: None,
        failed_icon: None,
        pulse_tick: None,
        battery: None,
        brightness: None,
        cpu_usage: None,
        cpu_freq: None,
        date_time: None,
        memory: None,
        mic: None,
        sound: None,
        temperature: None,
        weather: None,
        wired: None,
        wireless: None,
    }
}

fn battery_config() -> battery::Config {
    battery::Config {
        name: None,
        low_level: None,
        full_design: None,
        tick: None,
        placeholder: None,
        full_label: None,
        charging_label: None,
        discharging_label: None,
        low_label: None,
        unknown_label: None,
        format: None,
    }
}

fn text(s: &str) -> Option<String> {
    Some(s.to_string())
}

#[test]
fn registry_defaults() {
    let config = config();
    let expected = [
        ('a', "battery", "%l:%v"),
        ('b', "brightness", "%l:%v"),
        ('c', "cpu_usage", "%l:%v"),
        ('d', "date_time", "%v"),
        ('e', "wired", "%l"),
        ('f', "cpu_freq", "%l:%v"),
        ('i', "mic", "%l:%v"),
        ('m', "memory", "%l:%v"),
        ('r', "weather", "%v"),
        ('s', "sound", "%l:%v"),
        ('t', "temperature", "%l:%v"),
        ('w', "wireless", "%l:%v"),
    ];
    for (key, name, format) in expected {
        let module = Module::try_from(key, &config).unwrap();
        assert_eq!(module.name(), name);
        assert_eq!(module.placeholder(), "-");
        assert_eq!(module.format(), format);
    }
    assert!(matches!(Module::try_from('a', &config), Ok(Module::Battery(_))));
    assert!(matches!(Module::try_from('c', &config), Ok(Module::Cpu(_))));
    assert!(matches!(Module::try_from('e', &config), Ok(Module::Wired(_))));
    assert!(matches!(Module::try_from('r', &config), Ok(Module::Weather(_))));
}

#[test]
fn registry_rejects_unknown_keys() {
    let config = config();
    for key in ['z', 'A', '%', ' ', 'é', '"'] {
        let err = Module::try_from(key, &config).err().unwrap();
        assert_eq!(err.to_string(), format!("unknown markup \"{}\"", key));
    }
}

#[test]
fn with_config_takes_placeholder_and_format() {
    let mut config = config();
    let mut b = battery_config();
    b.placeholder = text("...");
    b.format = text("%v %l");
    config.battery = Some(b);
    config.wired = Some(wired::Config {
        tick: None,
        interface: None,
        discrete: None,
        placeholder: text("?"),
        label: None,
        disconnected_label: None,
        format: None,
    });
    let m = battery::Battery::with_config(&config);
    assert_eq!(m.placeholder(), "...");
    assert_eq!(m.format(), "%v %l");
    let w = wired::Wired::with_config(&config);
    assert_eq!(w.placeholder(), "?");
    assert_eq!(w.format(), "%l");
    let c = cpu_usage::CpuUsage::with_config(&config);
    assert_eq!(c.placeholder(), "-");
    assert_eq!(c.name(), "cpu_usage");
}

const ENERGY_UEVENT: &str = "POWER_SUPPLY_NAME=BAT0\nPOWER_SUPPLY_STATUS=Discharging\n\
POWER_SUPPLY_ENERGY_FULL_DESIGN=57000000\nPOWER_SUPPLY_ENERGY_FULL=50000000\n\
POWER_SUPPLY_ENERGY_NOW=4000000\n";

const CHARGE_UEVENT: &str = "POWER_SUPPLY_CHARGE_FULL_DESIGN=5\nPOWER_SUPPLY_CHARGE_FULL=4\n\
POWER_SUPPLY_CHARGE_NOW=3\n";

#[test]
fn battery_attribute_prefix() {
    assert_eq!(
        battery::find_attribute_prefix(ENERGY_UEVENT, "p").unwrap(),
        battery::Unit::Energy
    );
    assert_eq!(
        battery::find_attribute_prefix(CHARGE_UEVENT, "p").unwrap(),
        battery::Unit::Charge
    );
    let both = format!("{}{}", CHARGE_UEVENT, ENERGY_UEVENT);
    assert_eq!(battery::find_attribute_prefix(&both, "p").unwrap(), battery::Unit::Energy);
    let err = battery::find_attribute_prefix("POWER_SUPPLY_ENERGY_NOW=1\n", "/sys/x/uevent")
        .err()
        .unwrap();
    assert_eq!(err.to_string(), "unable to find the required attributes in /sys/x/uevent");
}

#[test]
fn battery_internal_config() {
    let config = config();
    assert_eq!(battery::uevent_path(&config), "/sys/class/power_supply/BAT0/uevent");
    let c = battery::InternalConfig::try_from(&config, ENERGY_UEVENT).unwrap();
    assert_eq!(c.low_level, 10);
    assert_eq!(c.tick, 500);
    assert_eq!(c.uevent, "/sys/class/power_supply/BAT0/uevent");
    assert_eq!(c.now_attribute, "POWER_SUPPLY_ENERGY_NOW");
    assert_eq!(c.full_attribute, "POWER_SUPPLY_ENERGY_FULL");
    assert_eq!(c.full_label, "*ba");
    assert_eq!(c.charging_label, "^ba");
    assert_eq!(c.discharging_label, "bat");
    assert_eq!(c.low_label, "!ba");
    assert_eq!(c.unknown_label, ".ba");

    let mut config = config;
    let mut b = battery_config();
    b.name = text("BAT1");
    b.full_design = Some(true);
    b.low_level = Some(20);
    b.tick = Some(1000);
    b.low_label = text("low");
    config.battery = Some(b);
    let c = battery::InternalConfig::try_from(&config, CHARGE_UEVENT).unwrap();
    assert_eq!(c.uevent, "/sys/class/power_supply/BAT1/uevent");
    assert_eq!(c.now_attribute, "POWER_SUPPLY_CHARGE_NOW");
    assert_eq!(c.full_attribute, "POWER_SUPPLY_CHARGE_FULL_DESIGN");
    assert_eq!(c.low_level, 20);
    assert_eq!(c.tick, 1000);
    assert_eq!(c.low_label, "low");
    let err = battery::InternalConfig::try_from(&config, "").err().unwrap();
    assert_eq!(
        err.to_string(),
        "unable to find the required attributes in /sys/class/power_supply/BAT1/uevent"
    );
}

#[test]
fn battery_lines() {
    assert_eq!(battery::parse_attribute("POWER_SUPPLY_ENERGY_NOW=4000000", "POWER_SUPPLY_ENERGY_NOW"), Some(4000000));
    assert_eq!(battery::parse_attribute("POWER_SUPPLY_ENERGY_NOW=4=5", "POWER_SUPPLY_ENERGY_NOW"), Some(4));
    assert_eq!(battery::parse_attribute("POWER_SUPPLY_ENERGY_NOW", "POWER_SUPPLY_ENERGY_NOW"), None);
    assert_eq!(battery::parse_attribute("POWER_SUPPLY_ENERGY_NOW=", "POWER_SUPPLY_ENERGY_NOW"), None);
    assert_eq!(battery::parse_attribute("POWER_SUPPLY_ENERGY_NOW=x", "POWER_SUPPLY_ENERGY_NOW"), None);
    assert_eq!(battery::parse_attribute("XPOWER_SUPPLY_ENERGY_NOW=1", "POWER_SUPPLY_ENERGY_NOW"), None);
    assert_eq!(
        battery::parse_attribute("POWER_SUPPLY_ENERGY_FULL_DESIGN=57", "POWER_SUPPLY_ENERGY_FULL"),
        Some(57)
    );
    assert_eq!(battery::parse_status("POWER_SUPPLY_STATUS=Full"), text("Full"));
    assert_eq!(battery::parse_status("POWER_SUPPLY_STATUS=Not charging=x"), text("Not charging"));
    assert_eq!(battery::parse_status("POWER_SUPPLY_STATUS"), None);
    assert_eq!(battery::parse_status("POWER_SUPPLY_NAME=BAT0"), None);
    assert_eq!(battery::field_after_equals("a=b=c"), text("b"));
    assert_eq!(battery::field_after_equals("a="), text(""));
    assert_eq!(battery::field_after_equals("a"), None);
}

#[test]
fn battery_attributes_of_a_file() {
    let lines: Vec<String> = ENERGY_UEVENT.lines().map(|l| l.to_string()).collect();
    let found = battery::parse_attributes(
        &lines,
        "/u",
        "POWER_SUPPLY_ENERGY_NOW",
        "POWER_SUPPLY_ENERGY_FULL",
    )
    .unwrap();
    assert_eq!(found, (4000000, 57000000, "Discharging".to_string()));
    let found = battery::parse_attributes(
        &lines,
        "/u",
        "POWER_SUPPLY_ENERGY_NOW",
        "POWER_SUPPLY_ENERGY_FULL=",
    )
    .unwrap();
    assert_eq!(found, (4000000, 50000000, "Discharging".to_string()));
    let err = battery::parse_attributes(&lines, "/u", "POWER_SUPPLY_CHARGE_NOW", "POWER_SUPPLY_ENERGY_FULL")
        .err()
        .unwrap();
    assert_eq!(err.to_string(), "unable to parse the required attributes in /u");
    assert!(battery::parse_attributes(&vec![], "/u", "A", "B").is_err());
}

#[test]
fn battery_message() {
    let config = config();
    let c = battery::InternalConfig::try_from(&config, ENERGY_UEVENT).unwrap();
    assert_eq!(battery::battery_level(4000000, 50000000).unwrap(), 8);
    assert_eq!(battery::battery_level(1, 3).unwrap(), 33);
    assert_eq!(battery::battery_level(2, 3).unwrap(), 66);
    assert_eq!(battery::battery_level(5, -1).unwrap(), 0);
    assert_eq!(battery::battery_level(0, 7).unwrap(), 0);
    assert_eq!(battery::battery_level(i32::MAX, 50).unwrap(), 4294967294);
    assert_eq!(
        battery::battery_level(i32::MAX, 1).err().unwrap().to_string(),
        "out of range integral type conversion attempted"
    );
    let m = battery::message('a', 85, 100, "Full", &c).unwrap();
    assert_eq!((m.0, m.1, m.2), ('a', text(" 85%"), text("*ba")));
    let m = battery::message('a', 85, 100, "Charging", &c).unwrap();
    assert_eq!(m.2, text("^ba"));
    let m = battery::message('a', 11, 100, "Discharging", &c).unwrap();
    assert_eq!((m.1, m.2), (text(" 11%"), text("bat")));
    let m = battery::message('a', 10, 100, "Discharging", &c).unwrap();
    assert_eq!((m.1, m.2), (text(" 10%"), text("!ba")));
    let m = battery::message('a', 100, 100, "Not charging", &c).unwrap();
    assert_eq!((m.1, m.2), (text("100%"), text(".ba")));
    assert!(battery::message('a', i32::MAX, 1, "Full", &c).is_err());
}

#[test]
fn brightness_module() {
    let mut config = config();
    let c = brightness::InternalConfig::from(&config);
    assert_eq!(
        c.sys_path,
        "/sys/devices/pci0000:00/0000:00:02.0/drm/card0/card0-eDP-1/intel_backlight"
    );
    assert_eq!((c.tick, c.label), (50, "bri"));
    config.brightness = Some(brightness::Config {
        placeholder: None,
        sys_path: text("/sys/b"),
        tick: Some(7),
        label: text("B"),
        format: None,
    });
    let c = brightness::InternalConfig::from(&config);
    assert_eq!(c.actual_brightness_path(), "/sys/b/actual_brightness");
    assert_eq!(c.max_brightness_path(), "/sys/b/max_brightness");
    assert_eq!((c.tick, c.label), (7, "B"));
    let m = brightness::message('b', 1, 3, &c);
    assert_eq!((m.0, m.1, m.2), ('b', text(" 33%"), text("B")));
    let m = brightness::message('b', 937, 937, &c);
    assert_eq!(m.1, text("100%"));
    let m = brightness::message('b', -1, 3, &c);
    assert_eq!(m.1, text("-33%"));
}

#[test]
fn cpu_usage_module() {
    let mut config = config();
    let c = cpu_usage::InternalConfig::from(&config);
    assert_eq!((c.proc_stat, c.high_level, c.tick, c.label, c.high_label), ("/proc/stat", 90, 500, "cpu", "!cp"));
    let m = cpu_usage::message('c', 89, &c);
    assert_eq!((m.0, m.1, m.2), ('c', text(" 89%"), text("cpu")));
    let m = cpu_usage::message('c', 90, &c);
    assert_eq!((m.1, m.2), (text(" 90%"), text("!cp")));
    config.cpu_usage = Some(cpu_usage::Config {
        tick: Some(1),
        high_level: Some(u32::MAX),
        placeholder: None,
        label: text("l"),
        high_label: text("h"),
        format: None,
    });
    let c = cpu_usage::InternalConfig::from(&config);
    assert_eq!(cpu_usage::message('c', -1, &c).2, text("h"));
    assert_eq!(cpu_usage::message('c', -2, &c).2, text("l"));
}

#[test]
fn cpu_times() {
    let times = cpu_usage::parse_times("cpu  4705 356 584 3699 23 23 0 0 0 0\n", "/proc/stat").unwrap();
    assert_eq!(times, vec![4705, 356, 584, 3699, 23, 23, 0, 0, 0, 0]);
    assert_eq!(cpu_usage::idle_and_total(&times), Some((3722, 9390)));
    assert_eq!(cpu_usage::parse_times("", "p").unwrap(), Vec::<i32>::new());
    assert_eq!(cpu_usage::parse_times("cpu", "p").unwrap(), Vec::<i32>::new());
    assert_eq!(cpu_usage::parse_times("x 1 -2", "p").unwrap(), vec![1, -2]);
    let err = cpu_usage::parse_times("cpu 1 2 x 4", "/proc/stat").err().unwrap();
    assert_eq!(err.to_string(), "error while parsing the file \"/proc/stat\"");
    assert!(cpu_usage::parse_times("cpu 1 3000000000", "p").is_err());
    assert_eq!(cpu_usage::idle_and_total(&vec![1, 2, 3, 4]), None);
    assert_eq!(cpu_usage::idle_and_total(&vec![0, 0, 0, i32::MAX, 1]), None);
    assert_eq!(cpu_usage::idle_and_total(&vec![i32::MAX, 1, 0, 0, 0]), None);
    assert_eq!(cpu_usage::idle_and_total(&vec![1, 1, 1, 1, 1]), Some((2, 5)));
}

#[test]
fn cpu_freq_module() {
    let names = |list: &[&str]| -> Vec<String> { list.iter().map(|s| s.to_string()).collect() };
    let all = names(&["cpuinfo_max_freq", "scaling_max_freq", "cpuinfo_cur_freq", "scaling_cur_freq"]);
    let s = cpu_freq::sources(&all).unwrap();
    assert_eq!(s, cpu_freq::Sources { use_scaling_freq: true, max_freq: cpu_freq::MaxFreqFile::Scaling });
    let s = cpu_freq::sources(&names(&["cpuinfo_max_freq", "cpuinfo_cur_freq"])).unwrap();
    assert_eq!(s, cpu_freq::Sources { use_scaling_freq: false, max_freq: cpu_freq::MaxFreqFile::CpuInfo });
    assert_eq!(
        cpu_freq::sources(&names(&["cpuinfo_max_freq"])).err().unwrap().to_string(),
        "fail to find current cpu freq"
    );
    assert_eq!(
        cpu_freq::sources(&names(&["scaling_cur_freq", "other"])).err().unwrap().to_string(),
        "fail to find max cpu freq"
    );
    assert_eq!(cpu_freq::policy_path(), "/sys/devices/system/cpu/cpufreq/policy0");
    assert_eq!(cpu_freq::max_freq_name(cpu_freq::MaxFreqFile::Scaling), "scaling_max_freq");
    assert_eq!(cpu_freq::max_freq_name(cpu_freq::MaxFreqFile::CpuInfo), "cpuinfo_max_freq");
    assert!(cpu_freq::find_name(&all, "scaling_cur_freq"));
    assert!(!cpu_freq::find_name(&all, "scaling_cur"));

    let config = config();
    let c = cpu_freq::InternalConfig::new(&config, s, 3_600_999);
    assert_eq!(c.max_freq, 3600);
    assert_eq!((c.high_level, c.tick, c.show_max_freq, c.label, c.high_label), (80, 100, false, "fre", "!fr"));
    assert!(!c.use_scaling_freq);
    assert!(matches!(c.unit, cpu_freq::Unit::Smart));
    let c2 = cpu_freq::InternalConfig::new(&config, s, -1);
    assert_eq!(c2.max_freq, 4294967);
    let m = cpu_freq::message('f', "1.8GHz".to_string(), 79, &c);
    assert_eq!((m.0, m.1, m.2), ('f', text("1.8GHz"), text("fre")));
    assert_eq!(cpu_freq::message('f', String::new(), 80, &c).2, text("!fr"));
    assert_eq!(cpu_freq::mhz_field("cpu MHz\t\t: 1800.000"), text("1800.000"));
    assert_eq!(cpu_freq::mhz_field("cpu MHz"), text("MHz"));
    assert_eq!(cpu_freq::mhz_field("model name : x"), None);
    assert_eq!(cpu_freq::mhz_field("cpu MHz : 12\u{a0}34"), text("12\u{a0}34"));
}

#[test]
fn date_time_module() {
    let mut config = config();
    let c = date_time::InternalConfig::from(&config);
    assert_eq!((c.date_format, c.tick, c.label), ("%a. %-e %B %Y, %-kh%M", 500, None));
    let m = date_time::message('d', "noon".to_string(), &c);
    assert_eq!((m.0, m.1, m.2), ('d', text("noon"), None));
    config.date_time = Some(date_time::Config {
        date_format: text("%H"),
        tick: Some(9),
        placeholder: None,
        label: text("clk"),
        format: None,
    });
    let c = date_time::InternalConfig::from(&config);
    assert_eq!((c.date_format, c.tick, c.label), ("%H", 9, Some("clk")));
    assert_eq!(date_time::message('d', "12".to_string(), &c).2, text("clk"));
}

const MEMINFO: &str = "MemTotal:       16314564 kB\nMemFree:         9701096 kB\n\
MemAvailable:   13430836 kB\nBuffers:          286428 kB\nCached:          3528536 kB\n\
SwapCached:            0 kB\nSReclaimable:     148056 kB\nSUnreclaim:       152076 kB";

#[test]
fn memory_file() {
    let info = memory::read_meminfo(MEMINFO, "/proc/meminfo").unwrap();
    assert_eq!(
        info,
        memory::MemInfo {
            total: 16314564,
            free: 9701096,
            buffers: 286428,
            cached: 3528536,
            s_reclaimable: 148056
        }
    );
    assert_eq!(memory::used_kib(&info), Some(2650448));
    assert_eq!(memory::find_meminfo(memory::CACHED_PATTERN, MEMINFO, "e").unwrap(), 3528536);
    assert_eq!(memory::find_meminfo(memory::FREE_PATTERN, "MemFree:7kB", "e").unwrap(), 7);
    assert_eq!(
        memory::find_meminfo(memory::FREE_PATTERN, " MemFree: 7 kB", "gone").err().unwrap().to_string(),
        "gone"
    );
    assert_eq!(
        memory::find_meminfo("(", MEMINFO, "no pattern").err().unwrap().to_string(),
        "no pattern"
    );
    assert_eq!(
        memory::find_meminfo("MemFree", MEMINFO, "no group").err().unwrap().to_string(),
        "no group"
    );
    assert_eq!(
        memory::find_meminfo(memory::TOTAL_PATTERN, "MemTotal: 99999999999 kB", "e")
            .err()
            .unwrap()
            .to_string(),
        "error while parsing meminfo: number too large to fit in target type"
    );
    let without = MEMINFO.replace("Buffers", "Buffer");
    assert_eq!(
        memory::read_meminfo(&without, "/proc/meminfo").err().unwrap().to_string(),
        "Buffers not found in \"/proc/meminfo\""
    );
    assert_eq!(
        memory::read_meminfo("", "/m").err().unwrap().to_string(),
        "MemTotal not found in \"/m\""
    );
    assert_eq!(memory::not_found_message("SReclaimable", "/m"), "SReclaimable not found in \"/m\"");
}

#[test]
fn memory_values_from_a_match() {
    let groups = Some(vec![text("MemFree: 12 kB"), text("12")]);
    assert_eq!(memory::meminfo_value(&groups, "e").unwrap(), 12);
    let groups = Some(vec![text("x"), None]);
    assert_eq!(memory::meminfo_value(&groups, "e").err().unwrap().to_string(), "e");
    let groups = Some(vec![text("x")]);
    assert_eq!(memory::meminfo_value(&groups, "e").err().unwrap().to_string(), "e");
    assert_eq!(memory::meminfo_value(&None, "e").err().unwrap().to_string(), "e");
    let groups = Some(vec![text("x"), text("١٢")]);
    assert_eq!(
        memory::meminfo_value(&groups, "e").err().unwrap().to_string(),
        "error while parsing meminfo: invalid digit found in string"
    );
}

#[test]
fn memory_module() {
    let mut config = config();
    let c = memory::InternalConfig::from(&config);
    assert_eq!((c.meminfo, c.high_level, c.tick, c.label, c.high_label), ("/proc/meminfo", 90, 500, "mem", "!me"));
    assert!(matches!(c.display, memory::Display::GiB));
    let m = memory::message('m', 90, " 2.5GiB", "15.6GiB", &c);
    assert_eq!((m.0, m.1, m.2), ('m', text(" 2.5GiB/15.6GiB"), text("mem")));
    assert_eq!(memory::message('m', 91, "a", "b", &c).2, text("!me"));
    config.memory = Some(memory::Config {
        high_level: Some(50),
        display: Some(memory::Display::Percentage),
        tick: None,
        placeholder: None,
        label: None,
        high_label: None,
        format: None,
    });
    let c = memory::InternalConfig::from(&config);
    let m = memory::message('m', 51, "a", "b", &c);
    assert_eq!((m.1, m.2), (text(" 51%"), text("!me")));
    let info = memory::MemInfo { total: i32::MIN, free: 1, buffers: 0, cached: 0, s_reclaimable: 0 };
    assert_eq!(memory::used_kib(&info), None);
    let info = memory::MemInfo { total: 10, free: 1, buffers: 2, cached: 3, s_reclaimable: 5 };
    assert_eq!(memory::used_kib(&info), Some(-1));
}

#[test]
fn mic_and_sound_modules() {
    let mut config = config();
    let c = mic::InternalConfig::from(&config);
    assert_eq!((c.tick, c.label, c.mute_label), (50, "mic", ".mi"));
    let m = mic::message('i', PulseData(40, false), &c);
    assert_eq!((m.0, m.1, m.2), ('i', text(" 40%"), text("mic")));
    assert_eq!(mic::message('i', PulseData(0, true), &c).2, text(".mi"));
    let c = sound::InternalConfig::from(&config);
    assert_eq!((c.tick, c.label, c.mute_label), (50, "sou", ".so"));
    let m = sound::message('s', PulseData(153, false), &c);
    assert_eq!((m.0, m.1, m.2), ('s', text("153%"), text("sou")));
    assert_eq!(sound::message('s', PulseData(7, true), &c).2, text(".so"));
    config.sound = Some(sound::Config {
        sink_name: text("sink"),
        tick: Some(10),
        placeholder: None,
        label: text("S"),
        mute_label: text("M"),
        format: None,
    });
    config.mic = Some(mic::Config {
        source_name: text("source"),
        tick: None,
        placeholder: None,
        label: None,
        mute_label: None,
        format: None,
    });
    let c = sound::InternalConfig::from(&config);
    assert_eq!((c.tick, c.label, c.mute_label), (10, "S", "M"));
    let settings = pulse_settings(&config);
    assert_eq!(settings.tick, 50_000_000);
    assert_eq!(settings.sink_name, text("sink"));
    assert_eq!(settings.source_name, text("source"));
    config.pulse_tick = Some(20);
    assert!(tick_fits(&config));
    assert_eq!(pulse_settings(&config).tick, 20_000_000);
    config.pulse_tick = Some(4294);
    assert!(tick_fits(&config));
    config.pulse_tick = Some(4295);
    assert!(!tick_fits(&config));
}

#[test]
fn temperature_candidates() {
    let range = |s: &str| temperature::candidates(&temperature::CoreInputs::Range(s.to_string()));
    assert!(matches!(range("2..5"), Ok(Some(temperature::Candidates::Range(2, 5)))));
    assert!(matches!(range("0..4294967295"), Ok(Some(temperature::Candidates::Range(0, 4294967295)))));
    assert!(matches!(range("5..2"), Ok(None)));
    assert!(matches!(range("3..3"), Ok(None)));
    assert!(matches!(range("2...5"), Ok(None)));
    assert!(matches!(range("2..5 "), Ok(None)));
    assert!(matches!(range(""), Ok(None)));
    assert_eq!(
        range("99999999999..5").err().unwrap().to_string(),
        "error while parsing the range of inputs: number too large to fit in target type"
    );
    assert_eq!(
        range("١..٢").err().unwrap().to_string(),
        "error while parsing the range of inputs: invalid digit found in string"
    );
    match temperature::candidates(&temperature::CoreInputs::Single(7)).unwrap() {
        Some(temperature::Candidates::List(l)) => assert_eq!(l, vec![7]),
        _ => panic!("a list was expected"),
    }
    match temperature::candidates(&temperature::CoreInputs::List(vec![3, 1, 2])).unwrap() {
        Some(temperature::Candidates::List(l)) => assert_eq!(l, vec![3, 1, 2]),
        _ => panic!("a list was expected"),
    }
    let groups = Some(vec![text("1..2"), text("1")]);
    assert_eq!(
        temperature::range_bounds(&groups).err().unwrap().to_string(),
        "error while parsing the range of inputs: a bound is missing"
    );
    assert_eq!(temperature::range_bounds(&None).unwrap(), None);
    let groups = Some(vec![text("1..2"), text("1"), text("2")]);
    assert_eq!(temperature::range_bounds(&groups).unwrap(), Some((1, 2)));
}

#[test]
fn temperature_inputs() {
    let get = |core_inputs: &temperature::CoreInputs, existing: &[u32]| {
        temperature::get_inputs(core_inputs, &existing.to_vec()).map_err(|e| e.to_string())
    };
    let single = temperature::CoreInputs::Single(2);
    assert_eq!(get(&single, &[1, 2, 3]), Ok(Some(vec![2])));
    assert_eq!(get(&single, &[1, 3]), Ok(None));
    assert_eq!(get(&single, &[]), Ok(None));
    let list = temperature::CoreInputs::List(vec![5, 1, 2, 1]);
    assert_eq!(get(&list, &[]), Ok(Some(vec![])));
    assert_eq!(get(&list, &[1, 2, 3]), Ok(Some(vec![1, 2, 1])));
    assert_eq!(get(&list, &[5, 1]), Ok(Some(vec![5, 1, 1])));
    let range = |s: &str| temperature::CoreInputs::Range(s.to_string());
    assert_eq!(get(&range("2..5"), &[9, 5, 1, 3, 2]), Ok(Some(vec![2, 3, 5])));
    assert_eq!(get(&range("1..3"), &[]), Ok(Some(vec![])));
    assert_eq!(get(&range("4294967294..4294967295"), &[4294967295]), Ok(Some(vec![4294967295])));
    assert_eq!(get(&range("3..3"), &[3]), Ok(None));
    assert_eq!(get(&range("5..2"), &[2, 3, 4, 5]), Ok(None));
    assert_eq!(get(&range("x"), &[1]), Ok(None));
    assert_eq!(get(&range(""), &[1]), Ok(None));
    assert_eq!(
        get(&range("99999999999..5"), &[1]),
        Err("error while parsing the range of inputs: number too large to fit in target type"
            .to_string())
    );
    assert!(temperature::has_input(&vec![1, 2], 2));
    assert!(!temperature::has_input(&vec![1, 2], 3));
    let some = temperature::Candidates::Range(7, 9);
    assert_eq!(temperature::keep_existing(&some, &vec![9, 8, 1]), vec![8, 9]);
}

#[test]
fn temperature_module() {
    let mut config = config();
    assert_eq!(temperature::coretemp_path(&config), "/sys/devices/platform/coretemp.0/hwmon");
    let c = temperature::InternalConfig::new(&config, Some(vec![4, 5]));
    assert_eq!(c.inputs, vec![1]);
    assert_eq!((c.coretemp, c.high_level, c.tick, c.label, c.high_label),
        ("/sys/devices/platform/coretemp.0/hwmon", 75, 50, "tem", "!te"));
    let section = |core_inputs| temperature::Config {
        coretemp: text("/t"),
        high_level: Some(60),
        core_inputs,
        tick: Some(100),
        placeholder: None,
        label: None,
        high_label: text("hot"),
        format: None,
    };
    config.temperature = Some(section(Some(temperature::CoreInputs::Single(2))));
    assert_eq!(temperature::coretemp_path(&config), "/t");
    let c = temperature::InternalConfig::new(&config, Some(vec![4, 5]));
    assert_eq!(c.inputs, vec![4, 5]);
    assert_eq!((c.coretemp, c.high_level, c.tick, c.label, c.high_label), ("/t", 60, 100, "tem", "hot"));
    assert_eq!(temperature::InternalConfig::new(&config, Some(vec![])).inputs, vec![1]);
    assert_eq!(temperature::InternalConfig::new(&config, None).inputs, vec![1]);
    let mut other = self::config();
    other.temperature = Some(section(None));
    assert_eq!(temperature::InternalConfig::new(&other, Some(vec![4])).inputs, vec![1]);


    assert_eq!(temperature::input_path("/t/hwmon1", 12), "/t/hwmon1/temp12_input");
    assert_eq!(temperature::input_path("", 0), "/temp0_input");
    let m = temperature::message('t', 59, &c);
    assert_eq!((m.0, m.1, m.2), ('t', text(" 59°"), text("tem")));
    let m = temperature::message('t', 60, &c);
    assert_eq!((m.1, m.2), (text(" 60°"), text("hot")));
    assert_eq!(temperature::message('t', -5, &c).1, text(" -5°"));
    assert_eq!(temperature::message('t', 105, &c).1, text("105°"));
}

fn icons() -> weather::WeatherIcons {
    weather::WeatherIcons {
        clear_sky: Some(weather::IconSet::DayAndNight("sun".to_string(), "moon".to_string())),
        partly_cloudy: Some(weather::IconSet::DayOnly("pc".to_string())),
        cloudy: None,
        very_cloudy: None,
        shower_rain: Some(weather::IconSet::DayOnly("sr".to_string())),
        rain: Some(weather::IconSet::DayOnly("rain".to_string())),
        thunderstorm: None,
        snow: Some(weather::IconSet::DayOnly("snow".to_string())),
        mist: Some(weather::IconSet::DayOnly("mist".to_string())),
        default: None,
    }
}

fn weather_config() -> weather::Config {
    weather::Config {
        location: weather::Location::City("Paris".to_string()),
        api_key: "KEY".to_string(),
        unit: None,
        lang: None,
        icons: None,
        text_mode: None,
        tick: None,
        placeholder: None,
        label: None,
        format: None,
    }
}

#[test]
fn weather_internal_config_and_url() {
    let mut config = config();
    let c = weather::InternalConfig::try_from(&config).unwrap();
    assert_eq!(c.tick, 120_000);
    assert_eq!(c.label, "wtr");
    assert!(c.text_mode);
    assert!(c.icons.is_none());
    assert_eq!(c.unit, weather::Unit::Metric);
    assert_eq!(
        weather::build_url(&c),
        "https://api.openweathermap.org/data/2.5/weather?lat=42.38&lon=8.94&units=metric&appid="
    );
    let mut w = weather_config();
    w.lang = text("fr");
    w.unit = Some(weather::Unit::Imperial);
    w.tick = Some(60);
    w.label = text("W");
    config.weather = Some(w);
    let c = weather::InternalConfig::try_from(&config).unwrap();
    assert_eq!(c.tick, 60_000);
    assert_eq!(c.label, "W");
    assert_eq!(c.lang, Some("fr"));
    assert!(c.text_mode);
    assert_eq!(
        weather::build_url(&c),
        "https://api.openweathermap.org/data/2.5/weather?q=Paris&units=imperial&appid=KEY&lang=fr"
    );
    let mut w = weather_config();
    w.location = weather::Location::Coordinates(weather::Coord {
        lat: "-1.5".to_string(),
        lon: "2".to_string(),
    });
    w.unit = Some(weather::Unit::Standard);
    w.icons = Some(icons());
    config.weather = Some(w);
    let c = weather::InternalConfig::try_from(&config).unwrap();
    assert!(!c.text_mode);
    assert!(c.icons.is_some());
    assert_eq!(
        weather::build_url(&c),
        "https://api.openweathermap.org/data/2.5/weather?lat=-1.5&lon=2&units=standard&appid=KEY"
    );
    let mut w = weather_config();
    w.icons = Some(icons());
    w.text_mode = Some(true);
    config.weather = Some(w);
    assert!(weather::InternalConfig::try_from(&config).unwrap().text_mode);
    let mut w = weather_config();
    w.icons = Some(icons());
    w.text_mode = Some(false);
    config.weather = Some(w);
    assert!(!weather::InternalConfig::try_from(&config).unwrap().text_mode);
    assert_eq!(weather::Unit::Standard.to_api(), "standard");
    assert_eq!(weather::Unit::Metric.to_api(), "metric");
    assert_eq!(weather::Unit::Imperial.to_api(), "imperial");
    assert_eq!(weather::Unit::Standard.temp_symbol(), "K");
    assert_eq!(weather::Unit::Metric.temp_symbol(), "°");
    assert_eq!(weather::Unit::Imperial.temp_symbol(), "°");
}

#[test]
fn weather_icons() {
    let icons = icons();
    assert_eq!(weather::icon_code("01d"), 1);
    assert_eq!(weather::icon_code("50n"), 50);
    assert_eq!(weather::icon_code("13"), 13);
    assert_eq!(weather::icon_code("xyz"), 99);
    assert_eq!(weather::icon_code("*"), 99);
    assert_eq!(weather::icon_code(""), 99);
    assert_eq!(weather::icon_code("+5d"), 5);
    assert_eq!(weather::get_icon("01d", &icons), "sun");
    assert_eq!(weather::get_icon("01n", &icons), "moon");
    assert_eq!(weather::get_icon("02n", &icons), "pc");
    assert_eq!(weather::get_icon("03d", &icons), "*");
    assert_eq!(weather::get_icon("09d", &icons), "sr");
    assert_eq!(weather::get_icon("10d", &icons), "rain");
    assert_eq!(weather::get_icon("13d", &icons), "snow");
    assert_eq!(weather::get_icon("50d", &icons), "mist");
    assert_eq!(weather::get_icon("77d", &icons), "sun");
    assert_eq!(weather::get_icon("zz", &icons), "moon");
    let mut with_default = icons;
    with_default.default = text("?");
    assert_eq!(weather::get_icon("04d", &with_default), "?");
    assert_eq!(weather::get_icon("11n", &with_default), "?");
    assert!(with_default.icon(3).is_none());
    assert!(with_default.icon(1).is_some());
    assert!(with_default.icon(0).is_some());
}

#[test]
fn weather_output() {
    let mut config = config();
    let data = weather::WeatherData { description: "light rain".to_string(), icon: "10n".to_string() };
    let c = weather::InternalConfig::try_from(&config).unwrap();
    assert_eq!(weather::get_output(21, Some(&data), &c), "light rain 21°");
    assert_eq!(weather::get_output(0, None, &c), "N/A 0°");
    let mut w = weather_config();
    w.icons = Some(icons());
    w.unit = Some(weather::Unit::Standard);
    config.weather = Some(w);
    let c = weather::InternalConfig::try_from(&config).unwrap();
    assert_eq!(weather::get_output(294, Some(&data), &c), "rain 294K");
    assert_eq!(weather::get_output(294, None, &c), "moon 294K");
    let m = weather::message('r', "rain 294K".to_string(), &c);
    assert_eq!((m.0, m.1, m.2), ('r', text("rain 294K"), text("wtr")));
}

#[test]
fn wired_module() {
    let mut config = config();
    let c = wired::InternalConfig::from(&config);
    assert_eq!(
        (c.interface, c.discrete, c.tick, c.label, c.disconnected_label),
        ("enp0s31f6", false, 1000, "eth", ".et")
    );
    let m = wired::message('e', Some(WiredState::Connected), &c);
    assert_eq!((m.0, m.1, m.2), ('e', None, text("eth")));
    assert_eq!(wired::message('e', Some(WiredState::Disconnected), &c).2, text(".et"));
    assert_eq!(wired::message('e', Some(WiredState::NotPlugged), &c).2, text(".et"));
    assert_eq!(wired::message('e', None, &c).2, text(".et"));
    config.wired = Some(wired::Config {
        tick: Some(5),
        interface: text("eth0"),
        discrete: Some(true),
        placeholder: None,
        label: text("up"),
        disconnected_label: text("down"),
        format: None,
    });
    let c = wired::InternalConfig::from(&config);
    assert_eq!((c.interface, c.discrete, c.tick), ("eth0", true, 5));
    assert_eq!(wired::message('e', Some(WiredState::Connected), &c).2, text("up"));
    assert_eq!(wired::message('e', Some(WiredState::NotPlugged), &c).2, None);
    assert_eq!(wired::message('e', None, &c).2, None);
}

#[test]
fn link_states() {
    let data = |c, o, i| NlWiredData { is_carrying: c, is_operational: o, has_ip: i };
    assert_eq!(wired_state(&data(true, true, true)), WiredState::Connected);
    assert_eq!(wired_state(&data(true, true, false)), WiredState::Disconnected);
    assert_eq!(wired_state(&data(true, false, true)), WiredState::Disconnected);
    assert_eq!(wired_state(&data(false, true, true)), WiredState::NotPlugged);
    assert_eq!(wired_state(&data(false, false, false)), WiredState::NotPlugged);
    assert!(matches!(wireless_state(-1, None), WirelessState::Disconnected));
    match wireless_state(-1, text("home")) {
        WirelessState::Connected(d) => assert_eq!((d.essid, d.signal), (text("home"), None)),
        _ => panic!("connected was expected"),
    }
    match wireless_state(70, None) {
        WirelessState::Connected(d) => assert_eq!((d.essid, d.signal), (None, Some(70))),
        _ => panic!("connected was expected"),
    }
    match wireless_state(0, text("")) {
        WirelessState::Connected(d) => assert_eq!((d.essid, d.signal), (text(""), Some(0))),
        _ => panic!("connected was expected"),
    }
}

#[test]
fn wireless_module() {
    let mut config = config();
    let c = wireless::InternalConfig::from(&config);
    assert_eq!(
        (c.max_essid_len, c.interface, c.tick, c.label, c.disconnected_label),
        (10, "wlan0", 500, "wle", ".wl")
    );
    assert!(matches!(c.display, wireless::Display::Signal));
    let connected = |essid: Option<&str>, signal| {
        Some(WirelessState::Connected(WirelessData { essid: essid.map(|s| s.to_string()), signal }))
    };
    let m = wireless::message('w', connected(Some("home"), Some(70)), &c).unwrap();
    assert_eq!((m.0, m.1, m.2), ('w', text(" 70%"), text("wle")));
    let m = wireless::message('w', connected(Some("home"), None), &c).unwrap();
    assert_eq!((m.1, m.2), (text("  ?%"), text("wle")));
    let m = wireless::message('w', Some(WirelessState::Disconnected), &c).unwrap();
    assert_eq!((m.1, m.2), (text("  ?%"), text(".wl")));
    assert!(wireless::message('w', None, &c).is_none());
    config.wireless = Some(wireless::Config {
        tick: None,
        display: Some(wireless::Display::Essid),
        max_essid_len: Some(4),
        interface: text("wlp2s0"),
        placeholder: None,
        label: None,
        disconnected_label: None,
        format: None,
    });
    let c = wireless::InternalConfig::from(&config);
    assert_eq!((c.max_essid_len, c.interface), (4, "wlp2s0"));
    let m = wireless::message('w', connected(Some("my network"), Some(70)), &c).unwrap();
    assert_eq!((m.1, m.2), (text("my n"), text("wle")));
    let m = wireless::message('w', connected(Some("abcd"), None), &c).unwrap();
    assert_eq!(m.1, text("abcd"));
    let m = wireless::message('w', connected(None, Some(1)), &c).unwrap();
    assert_eq!(m.1, text(""));
    let m = wireless::message('w', Some(WirelessState::Disconnected), &c).unwrap();
    assert_eq!((m.1, m.2), (text(""), text(".wl")));
    assert_eq!(wireless::cut_essid("abcdef", 0), "");
    assert_eq!(wireless::cut_essid("abc", 3), "abc");
    assert_eq!(wireless::cut_essid("ééé", 2), "éé");
}
