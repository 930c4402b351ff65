use godot_core::string_chars::validate_unicode_scalar_sequence;

// simple random pseudorandom number generator using the linear congruential method
struct Rand {
    state: u64,
}

impl Rand {
    const A: u64 = 6364136223846793005;
    const C: u64 = 1442695040888963407;

    fn new(seed: u64) -> Self {
        Self { state: seed }
    }

    fn next(&mut self) -> u32 {
        self.state = Self::A.wrapping_mul(self.state).wrapping_add(Self::C);
        self.state as u32
    }
}

#[test]
fn check_valid_unicode() {
    let mut rand = Rand::new(0xA102FE1);
    for _ in 0..16 {
        let len = (rand.next() % 128).min(80);
        let chars: Vec<u32> = (0..len)
            .map(|_| rand.next() % (char::MAX as u32))
            .filter_map(char::from_u32)
            .map(|x| x as u32)
            .collect();

        assert!(!chars.is_empty());

        assert!(validate_unicode_scalar_sequence(chars.as_slice()).is_some());
    }
}

#[test]
fn check_unpaired_surrogate_unicode() {
    let mut rand = Rand::new(0xA102FE1);
    for _ in 0..16 {
        let len = (rand.next() % 128).min(80);
        let mut chars: Vec<u32> = (0..len)
            .map(|_| rand.next() % char::MAX as u32)
            .filter_map(char::from_u32)
            .map(|x| x as u32)
            .collect();

        assert!(!chars.is_empty());

        for _ in 0..4 {
            let surrogate = rand.next() % (0xE000 - 0xD800) + 0xD800;
            assert!(char::from_u32(surrogate).is_none());
            chars.insert(rand.next() as usize % chars.len(), surrogate);
        }

        assert!(validate_unicode_scalar_sequence(chars.as_slice()).is_none());
    }
}

#[test]
fn check_out_of_range_unicode() {
    let mut rand = Rand::new(0xA102FE1);
    for _ in 0..16 {
        let len = (rand.next() % 128).min(80);
        let mut chars: Vec<u32> = (0..len)
            .map(|_| rand.next() % char::MAX as u32)
            .filter_map(char::from_u32)
            .map(|x| x as u32)
            .collect();

        assert!(!chars.is_empty());

        for _ in 0..4 {
            let out_of_range = rand.next() % (u32::MAX - char::MAX as u32) + char::MAX as u32;
            assert!(char::from_u32(out_of_range).is_none());
            chars.insert(rand.next() as usize % chars.len(), out_of_range);
        }

        assert!(validate_unicode_scalar_sequence(chars.as_slice()).is_none());
    }
}

#[test]
fn validated_characters_match_code_points() {
    let seq = [0x41u32, 0xE9, 0x1F600, 0xD7FF, 0xE000, 0x10FFFF];
    let chars = validate_unicode_scalar_sequence(&seq).unwrap();
    assert_eq!(chars, vec!['A', 'é', '😀', '\u{D7FF}', '\u{E000}', '\u{10FFFF}']);
    assert_eq!(validate_unicode_scalar_sequence(&[]), Some(vec![]));
    assert_eq!(validate_unicode_scalar_sequence(&[0x41, 0xD800]), None);
    assert_eq!(validate_unicode_scalar_sequence(&[0x110000]), None);
}
