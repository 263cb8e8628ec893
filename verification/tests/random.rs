use rand::{distributions::Standard, Rng};
use ripmors::encode_string;
use ripmors::encode_string_ascii;

// short enough to run with Miri
#[test]
fn test_ascii_encode_random_short() {
    let data: Vec<u8> = rand::thread_rng()
        .sample_iter::<u8, _>(Standard)
        .take(1024)
        .collect();
    encode_string_ascii(&data);
}

#[test]
fn test_ascii_encode_random_large() {
    let data: Vec<u8> = rand::thread_rng()
        .sample_iter::<u8, _>(Standard)
        .take(1048576)
        .collect();
    encode_string_ascii(&data);
}

// short enough to run with Miri
#[test]
fn test_unicode_encode_random_short() {
    let data: String = rand::thread_rng()
        .sample_iter::<u8, _>(Standard)
        .take(1024)
        .map(|c| c as char)
        .collect();
    encode_string(&data);
}

#[test]
fn test_unicode_encode_random_large() {
    let data: String = rand::thread_rng()
        .sample_iter::<u8, _>(Standard)
        .take(1048576)
        .map(|c| c as char)
        .collect();
    encode_string(&data);
}
