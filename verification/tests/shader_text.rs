use wgpu_sort::decimal::u32_dec;
use wgpu_sort::shader::shader_source;
use wgpu_sort::valid_subgroup_width;

#[test]
fn decimal_rendering() {
    assert_eq!(u32_dec(0), "0");
    assert_eq!(u32_dec(7), "7");
    assert_eq!(u32_dec(10), "10");
    assert_eq!(u32_dec(256), "256");
    assert_eq!(u32_dec(3840), "3840");
    assert_eq!(u32_dec(4096), "4096");
    assert_eq!(u32_dec(4294967295), "4294967295");
}

#[test]
fn width_validation() {
    for w in [1u32, 8, 16, 32, 64, 128] {
        assert!(valid_subgroup_width(w));
    }
    for w in [0u32, 2, 4, 3, 7, 96, 256, 512] {
        assert!(!valid_subgroup_width(w));
    }
}

#[test]
fn prelude_for_width_32() {
    let src = shader_source(32);
    let expected_head = "const histogram_sg_size: u32 = 32u;\n\
        const histogram_wg_size: u32 = 256u;\n\
        const prefix_wg_size: u32 = 128u;\n\
        const scatter_wg_size: u32 = 256u;\n\
        const rs_radix_log2: u32 = 8u;\n\
        const rs_radix_size: u32 = 256u;\n\
        const rs_keyval_size: u32 = 4u;\n\
        const rs_histogram_block_rows: u32 = 15u;\n\
        const rs_scatter_block_rows: u32 = 15u;\n\
        const rs_mem_dwords: u32 = 4096u;\n\
        const rs_mem_sweep_0_offset: u32 = 0u;\n\
        const rs_mem_sweep_1_offset: u32 = 8u;\n\
        const rs_mem_sweep_2_offset: u32 = 8u;\n";
    assert!(src.starts_with(expected_head), "prelude was:\n{}", &src[..expected_head.len()]);
}

#[test]
fn prelude_sweep_plan_per_width() {
    // (width, sweep1 offset = 256/w, sweep2 offset = 256/w + 256/w/w)
    let cases = [
        (1u32, 256u32, 512u32),
        (8, 32, 36),
        (16, 16, 17),
        (32, 8, 8),
        (64, 4, 4),
        (128, 2, 2),
    ];
    for (w, off1, off2) in cases {
        let src = shader_source(w);
        assert!(src.contains(&format!("const histogram_sg_size: u32 = {}u;\n", w)));
        assert!(src.contains(&format!("const rs_mem_sweep_1_offset: u32 = {}u;\n", off1)));
        assert!(src.contains(&format!("const rs_mem_sweep_2_offset: u32 = {}u;\n", off2)));
    }
}

#[test]
fn shader_has_the_five_entry_points() {
    let src = shader_source(32);
    for entry in [
        "fn zero_histograms",
        "fn calculate_histogram",
        "fn prefix_histogram",
        "fn scatter_even",
        "fn scatter_odd",
    ] {
        assert!(src.contains(entry), "missing {}", entry);
    }
}

#[test]
fn shader_parses_and_validates_for_every_width() {
    for w in [1u32, 8, 16, 32, 64, 128] {
        let src = shader_source(w);
        let module = match naga::front::wgsl::parse_str(&src) {
            Ok(m) => m,
            Err(e) => panic!("width {}: parse error: {}", w, e.emit_to_string(&src)),
        };
        let mut validator = naga::valid::Validator::new(
            naga::valid::ValidationFlags::all(),
            naga::valid::Capabilities::empty(),
        );
        let info = match validator.validate(&module) {
            Ok(i) => i,
            Err(e) => panic!("width {}: validation error: {:?}", w, e),
        };
        let names: Vec<String> = module.entry_points.iter().map(|e| e.name.clone()).collect();
        for entry in [
            "zero_histograms",
            "calculate_histogram",
            "prefix_histogram",
            "scatter_even",
            "scatter_odd",
        ] {
            assert!(names.iter().any(|n| n == entry), "missing entry point {}", entry);
        }
        let _ = info;
    }
}
