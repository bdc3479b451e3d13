//! Host-side model of the five device kernels, mirroring the WGSL step for
//! step (tickets, partition descriptors, stable rank claiming), run over the
//! same buffer layout the library allocates.  Workgroups are simulated in
//! scheduling order, so a look-back always finds a prefix descriptor.

use wgpu_sort::{histo_blocks_ru, keys_buffer_size, scatter_blocks_ru};

const RADIX_SIZE: usize = 256;
const KEYVAL_SIZE: usize = 4;
const WG_SIZE: usize = 256;
const BLOCK_ROWS: usize = 15;
const BLOCK_KVS: usize = WG_SIZE * BLOCK_ROWS;
const STATUS_SHIFT: u32 = 28;
const VALUE_MASK: u32 = 0x0FFF_FFFF;
const HISTOGRAMS_DWORDS: usize = KEYVAL_SIZE * RADIX_SIZE;

struct WgState {
    block: usize,
    pass_index: u32,
    rank_counter: [u32; RADIX_SIZE],
    my_digits: Vec<u32>,
    my_keys: Vec<u32>,
}

struct GpuModel {
    num_keys: u32,
    even_pass: u32,
    odd_pass: u32,
    work: Vec<u32>,
    keys_a: Vec<u32>,
    keys_b: Vec<u32>,
    payload_a: Vec<u32>,
    payload_b: Vec<u32>,
}

impl GpuModel {
    fn new(capacity: u32) -> GpuModel {
        let padded = keys_buffer_size(capacity) as usize;
        let blocks = scatter_blocks_ru(capacity) as usize;
        GpuModel {
            num_keys: capacity,
            even_pass: 0xDEAD,
            odd_pass: 0xBEEF,
            work: vec![0xAAAA_AAAA; (KEYVAL_SIZE + blocks) * RADIX_SIZE],
            keys_a: vec![0xCCCC_CCCC; padded],
            keys_b: vec![0xCCCC_CCCC; padded],
            payload_a: vec![0xCCCC_CCCC; capacity as usize],
            payload_b: vec![0xCCCC_CCCC; capacity as usize],
        }
    }

    fn zero_histograms(&mut self, nwg: u32) {
        self.even_pass = 0;
        self.odd_pass = 0;
        let total = (KEYVAL_SIZE + nwg as usize) * RADIX_SIZE;
        for i in 0..total {
            self.work[i] = 0;
        }
    }

    fn calculate_histogram(&mut self, nwg: u32) {
        for wid in 0..nwg as usize {
            let mut shared_hist = [0u32; HISTOGRAMS_DWORDS];
            let base = wid * BLOCK_KVS;
            for i in 0..BLOCK_KVS {
                let idx = base + i;
                if (idx as u32) < self.num_keys {
                    let key = self.keys_a[idx];
                    for p in 0..KEYVAL_SIZE {
                        let digit = ((key >> (p as u32 * 8)) & 255) as usize;
                        shared_hist[p * RADIX_SIZE + digit] += 1;
                    }
                }
            }
            for j in 0..HISTOGRAMS_DWORDS {
                self.work[j] += shared_hist[j];
            }
        }
    }

    fn prefix_histogram(&mut self) {
        for wid in 0..KEYVAL_SIZE {
            let base = wid * RADIX_SIZE;
            let mut running: u32 = 0;
            for i in 0..RADIX_SIZE {
                let count = self.work[base + i];
                self.work[base + i] = running;
                running += count;
            }
        }
    }

    // Phase one of a scatter workgroup: takes a ticket, loads and counts
    // its block, and publishes the aggregate descriptor, exactly as the two
    // entry points do up to the look-back.
    fn scatter_stage_count(&mut self, even: bool, nwg: u32) -> WgState {
        let ticket = if even {
            let t = self.even_pass;
            self.even_pass += 1;
            t
        } else {
            let t = self.odd_pass;
            self.odd_pass += 1;
            t
        };
        let blocks = nwg;
        let block = (ticket % blocks) as usize;
        let phase = (ticket / blocks) & 1;
        let pass_index = if even { 2 * phase } else { 2 * phase + 1 };
        let shift = pass_index * 8;
        let num_keys = self.num_keys;
        let base_idx = block * BLOCK_KVS;

        let mut rank_counter = [0u32; RADIX_SIZE];
        let mut my_digits = vec![u32::MAX; BLOCK_KVS];
        let mut my_keys = vec![0u32; BLOCK_KVS];
        for i in 0..BLOCK_KVS {
            let idx = base_idx + i;
            if (idx as u32) < num_keys {
                let key = if even { self.keys_a[idx] } else { self.keys_b[idx] };
                my_keys[i] = key;
                let digit = (key >> shift) & 255;
                my_digits[i] = digit;
                rank_counter[digit as usize] += 1;
            }
        }

        let agg_status = 2 * pass_index + 1;
        let stripe_base = HISTOGRAMS_DWORDS + block * RADIX_SIZE;
        if block + 1 < blocks as usize {
            for d in 0..RADIX_SIZE {
                self.work[stripe_base + d] =
                    (agg_status << STATUS_SHIFT) | (rank_counter[d] & VALUE_MASK);
            }
        }
        WgState { block, pass_index, rank_counter, my_digits, my_keys }
    }

    // Phase two: the look-back, the prefix upgrade and the scatter itself.
    fn scatter_stage_place(&mut self, even: bool, nwg: u32, st: &WgState) {
        let blocks = nwg;
        let block = st.block;
        let pass_index = st.pass_index;
        let base_idx = block * BLOCK_KVS;
        let agg_status = 2 * pass_index + 1;
        let pre_status = agg_status + 1;
        let stripe_base = HISTOGRAMS_DWORDS + block * RADIX_SIZE;

        let mut exclusive = [0u32; RADIX_SIZE];
        for d in 0..RADIX_SIZE {
            if block > 0 {
                let mut jb = block;
                loop {
                    let descriptor = self.work[HISTOGRAMS_DWORDS + (jb - 1) * RADIX_SIZE + d];
                    let status = descriptor >> STATUS_SHIFT;
                    assert!(
                        status == agg_status || status == pre_status,
                        "stale descriptor would spin: status {} for pass {}",
                        status,
                        pass_index
                    );
                    exclusive[d] += descriptor & VALUE_MASK;
                    if status == pre_status {
                        break;
                    }
                    if jb == 1 {
                        break;
                    }
                    jb -= 1;
                }
            }
        }
        if block + 1 < blocks as usize {
            for d in 0..RADIX_SIZE {
                self.work[stripe_base + d] = (pre_status << STATUS_SHIFT)
                    | ((exclusive[d] + st.rank_counter[d]) & VALUE_MASK);
            }
        }
        let mut digit_base = [0u32; RADIX_SIZE];
        for d in 0..RADIX_SIZE {
            digit_base[d] = self.work[pass_index as usize * RADIX_SIZE + d] + exclusive[d];
        }

        // stable ranks in element order
        let mut claim = [0u32; RADIX_SIZE];
        for i in 0..BLOCK_KVS {
            let digit = st.my_digits[i];
            if digit != u32::MAX {
                let rank = claim[digit as usize];
                claim[digit as usize] += 1;
                let dst = (digit_base[digit as usize] + rank) as usize;
                if even {
                    self.keys_b[dst] = st.my_keys[i];
                    self.payload_b[dst] = self.payload_a[base_idx + i];
                } else {
                    self.keys_a[dst] = st.my_keys[i];
                    self.payload_a[dst] = self.payload_b[base_idx + i];
                }
            }
        }
    }

    fn scatter_workgroup(&mut self, even: bool, nwg: u32) {
        let st = self.scatter_stage_count(even, nwg);
        self.scatter_stage_place(even, nwg, &st);
    }

    fn scatter_pass(&mut self, even: bool, nwg: u32) {
        for _ in 0..nwg {
            self.scatter_workgroup(even, nwg);
        }
    }

    // A hostile schedule: every block publishes its aggregate before any
    // block looks back, and the look-backs run from the last block to the
    // first, so every look-back walks a pure aggregate chain down to block
    // zero and no prefix descriptor short-circuits it.
    fn scatter_pass_staged(&mut self, even: bool, nwg: u32) {
        let mut states: Vec<WgState> = (0..nwg).map(|_| self.scatter_stage_count(even, nwg)).collect();
        states.sort_by(|a, b| b.block.cmp(&a.block));
        for st in &states {
            self.scatter_stage_place(even, nwg, st);
        }
    }

    // The dispatch sequence `sort` records, for `n` keyvals.
    fn run_sort(&mut self, n: u32) {
        self.num_keys = n;
        let h = histo_blocks_ru(n);
        let s = scatter_blocks_ru(n);
        self.zero_histograms(h);
        self.calculate_histogram(h);
        self.prefix_histogram();
        self.scatter_pass(true, s);
        self.scatter_pass(false, s);
        self.scatter_pass(true, s);
        self.scatter_pass(false, s);
    }

    // As run_sort, under the hostile schedule of scatter_pass_staged.
    fn run_sort_staged(&mut self, n: u32) {
        self.num_keys = n;
        let h = histo_blocks_ru(n);
        let s = scatter_blocks_ru(n);
        self.zero_histograms(h);
        self.calculate_histogram(h);
        self.prefix_histogram();
        self.scatter_pass_staged(true, s);
        self.scatter_pass_staged(false, s);
        self.scatter_pass_staged(true, s);
        self.scatter_pass_staged(false, s);
    }
}

fn check_sort(keys: &[u32], values: &[u32], sort_first_n: Option<u32>) {
    let capacity = keys.len() as u32;
    let n = sort_first_n.unwrap_or(capacity) as usize;
    let mut dev = GpuModel::new(capacity);
    dev.keys_a[..keys.len()].copy_from_slice(keys);
    dev.payload_a.copy_from_slice(values);
    dev.run_sort(n as u32);

    let mut expected: Vec<(u32, u32)> =
        keys[..n].iter().cloned().zip(values[..n].iter().cloned()).collect();
    expected.sort_by_key(|kv| kv.0);
    let got_keys = &dev.keys_a[..n];
    let got_vals = &dev.payload_a[..n];
    for i in 0..n {
        assert_eq!(got_keys[i], expected[i].0, "key at {}", i);
        assert_eq!(got_vals[i], expected[i].1, "value at {}", i);
    }
}

fn lcg_data(n: usize, seed: u32) -> Vec<u32> {
    let mut x = seed;
    (0..n)
        .map(|_| {
            x = x.wrapping_mul(1664525).wrapping_add(1013904223);
            x
        })
        .collect()
}

#[test]
fn model_sorts_ten_descending() {
    let keys: Vec<u32> = (0..10u32).rev().collect();
    let values = keys.clone();
    check_sort(&keys, &values, None);
}

#[test]
fn model_sorts_extremes_of_two() {
    check_sort(&[0xFFFF_FFFF, 0x0000_0000], &[0xA, 0xB], None);
}

#[test]
fn model_sorts_8192_descending() {
    let keys: Vec<u32> = (0..8192u32).rev().collect();
    let values = keys.clone();
    check_sort(&keys, &values, None);
}

#[test]
fn model_sorts_random_across_blocks() {
    // five scatter blocks, partial last block
    let keys = lcg_data(17000, 7);
    let values = lcg_data(17000, 99);
    check_sort(&keys, &values, None);
}

#[test]
fn model_sorts_prefix_only() {
    let keys = lcg_data(10000, 3);
    let values = lcg_data(10000, 4);
    check_sort(&keys, &values, Some(5000));
}

#[test]
fn model_back_to_back_sorts_share_state() {
    // the counters reset by zero_histograms must survive repeated sorts
    let keys = lcg_data(9000, 11);
    let values = lcg_data(9000, 12);
    let mut dev = GpuModel::new(9000);
    for _ in 0..3 {
        dev.keys_a[..9000].copy_from_slice(&keys);
        dev.payload_a.copy_from_slice(&values);
        dev.run_sort(9000);
        let mut expected: Vec<(u32, u32)> =
            keys.iter().cloned().zip(values.iter().cloned()).collect();
        expected.sort_by_key(|kv| kv.0);
        for i in 0..9000 {
            assert_eq!(dev.keys_a[i], expected[i].0);
            assert_eq!(dev.payload_a[i], expected[i].1);
        }
    }
}

#[test]
fn model_sorts_one_million_random() {
    let keys = lcg_data(1_000_000, 42);
    let values = lcg_data(1_000_000, 43);
    check_sort(&keys, &values, None);
}

#[test]
fn model_sorts_one_million_prefix_half() {
    let keys = lcg_data(1_000_000, 5);
    let values = lcg_data(1_000_000, 6);
    check_sort(&keys, &values, Some(500_000));
}

#[test]
fn model_survives_aggregate_only_lookback() {
    let keys = lcg_data(40_000, 21);
    let values = lcg_data(40_000, 22);
    let n = keys.len();
    let mut dev = GpuModel::new(n as u32);
    dev.keys_a[..n].copy_from_slice(&keys);
    dev.payload_a.copy_from_slice(&values);
    dev.run_sort_staged(n as u32);

    let mut expected: Vec<(u32, u32)> =
        keys.iter().cloned().zip(values.iter().cloned()).collect();
    expected.sort_by_key(|kv| kv.0);
    for i in 0..n {
        assert_eq!(dev.keys_a[i], expected[i].0);
        assert_eq!(dev.payload_a[i], expected[i].1);
    }
}

#[test]
fn model_sorts_positive_float_bits() {
    // positive IEEE-754 floats order like their raw bits: 1/1 .. 1/10 as
    // keys come back ascending and the values reverse
    let keys: Vec<u32> = (1..=10u32).map(|i| (1.0f32 / i as f32).to_bits()).collect();
    let values: Vec<u32> = (1..=10u32).collect();
    let n = keys.len();
    let mut dev = GpuModel::new(n as u32);
    dev.keys_a[..n].copy_from_slice(&keys);
    dev.payload_a.copy_from_slice(&values);
    dev.run_sort(n as u32);

    let sorted_keys: Vec<f32> = dev.keys_a[..n].iter().map(|b| f32::from_bits(*b)).collect();
    for i in 1..n {
        assert!(sorted_keys[i - 1] <= sorted_keys[i]);
    }
    let expected_values: Vec<u32> = (1..=10u32).rev().collect();
    assert_eq!(&dev.payload_a[..], &expected_values[..]);
}

#[test]
fn model_sorts_hundred_thousand_random() {
    let keys = lcg_data(100_000, 17);
    let values = lcg_data(100_000, 18);
    check_sort(&keys, &values, None);
}
