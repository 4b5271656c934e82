use llama_launcher::from_raw_or_k;
use llama_launcher::gpu::{GpuLayersMode, GpuLayersRepr};
use llama_launcher::text::{decimal_string, parse_usize};

#[test]
fn gpu_layers_to_arg() {
    assert_eq!(GpuLayersMode::Auto.to_arg(), "-1");
    assert_eq!(GpuLayersMode::All.to_arg(), "256");
    assert_eq!(GpuLayersMode::Manual(0).to_arg(), "0");
    assert_eq!(GpuLayersMode::Manual(33).to_arg(), "33");
    assert_eq!(GpuLayersMode::Manual(usize::MAX).to_arg(), usize::MAX.to_string());
}

#[test]
fn gpu_layers_from_text() {
    assert_eq!(GpuLayersMode::from_text("auto"), Some(GpuLayersMode::Auto));
    assert_eq!(GpuLayersMode::from_text(" -1\n"), Some(GpuLayersMode::Auto));
    assert_eq!(GpuLayersMode::from_text("all"), Some(GpuLayersMode::All));
    assert_eq!(GpuLayersMode::from_text("\u{3000}999"), Some(GpuLayersMode::All));
    assert_eq!(GpuLayersMode::from_text("12"), Some(GpuLayersMode::Manual(12)));
    assert_eq!(GpuLayersMode::from_text("+7"), Some(GpuLayersMode::Manual(7)));
    assert_eq!(GpuLayersMode::from_text("256"), Some(GpuLayersMode::Manual(256)));
    assert_eq!(GpuLayersMode::from_text("AUTO"), None);
    assert_eq!(GpuLayersMode::from_text("-2"), None);
    assert_eq!(GpuLayersMode::from_text(""), None);
    assert_eq!(GpuLayersMode::from_text("+"), None);
    assert_eq!(GpuLayersMode::from_text("1 2"), None);
    assert_eq!(GpuLayersMode::from_text("99999999999999999999999"), None);
}

#[test]
fn gpu_layers_from_numbers() {
    assert_eq!(GpuLayersMode::from_unsigned(5), GpuLayersMode::Manual(5));
    assert_eq!(GpuLayersMode::from_unsigned(999), GpuLayersMode::Manual(999));
    assert_eq!(GpuLayersMode::from_signed(-1), GpuLayersMode::Auto);
    assert_eq!(GpuLayersMode::from_signed(999), GpuLayersMode::All);
    assert_eq!(GpuLayersMode::from_signed(40), GpuLayersMode::Manual(40));
    assert_eq!(GpuLayersMode::from_signed(-2), GpuLayersMode::Manual(-2i64 as usize));
}

#[test]
fn gpu_layers_written_form_reads_back() {
    for m in [GpuLayersMode::Auto, GpuLayersMode::All, GpuLayersMode::Manual(17)] {
        let back = match m.to_repr() {
            GpuLayersRepr::Text(t) => GpuLayersMode::from_text(&t).unwrap(),
            GpuLayersRepr::Number(n) => GpuLayersMode::from_unsigned(n as u64),
        };
        assert_eq!(back, m);
    }
    assert_eq!(GpuLayersMode::Auto.to_repr(), GpuLayersRepr::Text("auto".to_string()));
    assert_eq!(GpuLayersMode::Manual(3).to_repr(), GpuLayersRepr::Number(3));
}

#[test]
fn decimal_round_trip() {
    for n in [0usize, 9, 10, 1234567, usize::MAX] {
        let s = decimal_string(n);
        assert_eq!(s, n.to_string());
        let v: Vec<char> = s.chars().collect();
        assert_eq!(parse_usize(&v), Some(n));
    }
}

#[test]
fn sizes_are_at_least_one_unit() {
    assert_eq!(from_raw_or_k(0), 1);
    assert_eq!(from_raw_or_k(1), 1);
    assert_eq!(from_raw_or_k(8), 8);
    assert_eq!(from_raw_or_k(1024), 1024);
    assert_eq!(from_raw_or_k(4096), 4);
    assert_eq!(from_raw_or_k(32768), 32);
    assert_eq!(from_raw_or_k(1500), 1);
}
