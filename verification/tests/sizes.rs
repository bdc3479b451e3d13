use wgpu_sort::{histo_blocks_ru, keys_buffer_size, scatter_blocks_ru, HISTO_BLOCK_KVS};

#[test]
fn block_constants() {
    assert_eq!(HISTO_BLOCK_KVS, 3840);
    assert_eq!(wgpu_sort::config::SCATTER_BLOCK_KVS, 3840);
    assert_eq!(wgpu_sort::config::RS_KEYVAL_SIZE, 4);
    assert_eq!(wgpu_sort::config::NUM_PASSES, 4);
    assert_eq!(wgpu_sort::config::RS_RADIX_SIZE, 256);
}

#[test]
fn scatter_blocks_small() {
    assert_eq!(scatter_blocks_ru(0), 0);
    assert_eq!(scatter_blocks_ru(1), 1);
    assert_eq!(scatter_blocks_ru(2), 1);
    assert_eq!(scatter_blocks_ru(3840), 1);
    assert_eq!(scatter_blocks_ru(3841), 2);
    assert_eq!(scatter_blocks_ru(8192), 3);
}

#[test]
fn scatter_blocks_large() {
    assert_eq!(scatter_blocks_ru(100_000), 27);
    assert_eq!(scatter_blocks_ru(1_000_000), 261);
    assert_eq!(scatter_blocks_ru(wgpu_sort::config::MAX_SORT_COUNT), 1_118_480);
}

#[test]
fn histo_blocks_equal_scatter_blocks() {
    for n in [0u32, 1, 2, 10, 3840, 3841, 8192, 100_000, 500_000, 1_000_000] {
        assert_eq!(histo_blocks_ru(n), scatter_blocks_ru(n));
    }
    assert_eq!(
        histo_blocks_ru(wgpu_sort::config::MAX_SORT_COUNT),
        scatter_blocks_ru(wgpu_sort::config::MAX_SORT_COUNT)
    );
}

#[test]
fn keys_buffer_size_pads_to_whole_blocks() {
    assert_eq!(keys_buffer_size(1), 3840);
    assert_eq!(keys_buffer_size(10), 3840);
    assert_eq!(keys_buffer_size(3840), 3840);
    assert_eq!(keys_buffer_size(3841), 7680);
    assert_eq!(keys_buffer_size(1_000_000), 261 * 3840);
    for n in [1u32, 2, 3840, 3841, 8192, 100_000, 1_000_000] {
        let padded = keys_buffer_size(n);
        assert_eq!(padded % HISTO_BLOCK_KVS, 0);
        assert!(padded >= n);
        assert!(padded < n + HISTO_BLOCK_KVS);
    }
    assert_eq!(
        keys_buffer_size(wgpu_sort::config::MAX_SORT_COUNT),
        wgpu_sort::config::MAX_SORT_COUNT
    );
}

#[test]
fn indirect_args_x_for_one_million() {
    // an indirect caller computes x = ceil(n / HISTO_BLOCK_KVS)
    let n: u32 = 1_000_000;
    let x = (n + HISTO_BLOCK_KVS - 1) / HISTO_BLOCK_KVS;
    assert_eq!(x, 261);
    assert_eq!(histo_blocks_ru(n), x);
    assert_eq!(scatter_blocks_ru(n), x);
}
