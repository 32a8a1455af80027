use pirate_downloader::chunks::{calculate_chunk_size, chunk_range, total_chunks};

const KIB: u64 = 1024;
const MIB: u64 = 1024 * 1024;
const GIB: u64 = 1024 * 1024 * 1024;

#[test]
fn chunk_size_on_tier_boundaries() {
    assert_eq!(calculate_chunk_size(0), 512 * KIB);
    assert_eq!(calculate_chunk_size(99 * MIB), 512 * KIB);
    assert_eq!(calculate_chunk_size(100 * MIB - 1), 512 * KIB);
    assert_eq!(calculate_chunk_size(100 * MIB), 4 * MIB);
    assert_eq!(calculate_chunk_size(GIB - 1), 4 * MIB);
    assert_eq!(calculate_chunk_size(GIB), 16 * MIB);
    assert_eq!(calculate_chunk_size(10 * GIB - 1), 16 * MIB);
    assert_eq!(calculate_chunk_size(10 * GIB), 64 * MIB);
    assert_eq!(calculate_chunk_size(u64::MAX), 64 * MIB);
}

#[test]
fn chunk_size_is_monotone() {
    let sizes = [0, 1, 99 * MIB, 100 * MIB, GIB - 1, GIB, 10 * GIB - 1, 10 * GIB, u64::MAX];
    for w in sizes.windows(2) {
        assert!(calculate_chunk_size(w[0]) <= calculate_chunk_size(w[1]));
    }
}

#[test]
fn chunk_counts_round_up() {
    assert_eq!(total_chunks(0), 0);
    assert_eq!(total_chunks(1), 1);
    assert_eq!(total_chunks(512 * KIB), 1);
    assert_eq!(total_chunks(512 * KIB + 1), 2);
    assert_eq!(total_chunks(MIB), 2);
    assert_eq!(total_chunks(10 * MIB), 20);
    assert_eq!(total_chunks(100 * MIB), 25);
    assert_eq!(total_chunks(u64::MAX), u64::MAX / (64 * MIB) + 1);
}

#[test]
fn last_chunk_is_shorter_and_ends_on_last_byte() {
    let total = 1_000_000;
    assert_eq!(chunk_range(total, 0), (0, 524_287, 524_288));
    let (start, end, len) = chunk_range(total, 1);
    assert_eq!(start, 524_288);
    assert_eq!(end, total - 1);
    assert_eq!(len, 475_712);
    assert!(len < calculate_chunk_size(total));
}

#[test]
fn chunk_ranges_tile_the_file() {
    let total = 1_300_000;
    let n = total_chunks(total);
    let mut next = 0;
    let mut sum = 0;
    for i in 0..n {
        let (start, end, len) = chunk_range(total, i);
        assert_eq!(start, next);
        assert_eq!(end - start + 1, len);
        next = end + 1;
        sum += len;
    }
    assert_eq!(next, total);
    assert_eq!(sum, total);
}

#[test]
fn largest_file_last_chunk_does_not_overflow() {
    let n = total_chunks(u64::MAX);
    let (start, end, len) = chunk_range(u64::MAX, n - 1);
    assert_eq!(end, u64::MAX - 1);
    assert_eq!(start + len - 1, end);
}
