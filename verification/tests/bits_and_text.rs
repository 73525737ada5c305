use demo1::bits::pack_bits;
use demo1::infrared::Event;
use demo1::text::{BitCollector, BIT_STRING_CAPACITY};

fn feed_bits(c: &mut BitCollector, bits: &str) {
    for ch in bits.chars() {
        let e = match ch {
            '0' => Event::DecodedBit(false),
            '1' => Event::DecodedBit(true),
            _ => Event::DecodedUnknown,
        };
        let out = c.on_event(e);
        assert!(out.report.is_none());
        assert!(!out.frame_marker);
    }
}

/// The bits of `text`, least-significant bit of each byte first.
fn bits_of(text: &str) -> String {
    let mut s = String::new();
    for b in text.bytes() {
        for k in 0..8 {
            s.push(if (b >> k) & 1 == 1 { '1' } else { '0' });
        }
    }
    s
}

#[test]
fn pack_bits_least_significant_first() {
    assert_eq!(pack_bits(&vec![]), Vec::<u8>::new());
    assert_eq!(pack_bits(&vec![true]), vec![1]);
    assert_eq!(
        pack_bits(&vec![true, false, false, false, false, false, true, false]),
        vec![0x41]
    );
    assert_eq!(
        pack_bits(&vec![false, false, false, false, false, false, false, true, true]),
        vec![0x80, 0x01]
    );
}

#[test]
fn bits_then_frame_report_text() {
    let mut c = BitCollector::new();
    let bits = bits_of("Hi");
    feed_bits(&mut c, &bits);
    assert_eq!(c.bit_counter(), 16);
    let out = c.on_event(Event::NewFrameReady);
    assert!(out.frame_marker);
    let r = out.report.expect("bits were collected");
    assert_eq!(r.bits.iter().collect::<String>(), bits);
    assert_eq!(r.text.iter().collect::<String>(), "Hi");
    assert_eq!(c.bit_counter(), 0);
    // nothing left to report
    let out = c.on_event(Event::DataFragReady);
    assert!(out.report.is_none());
    assert!(!out.frame_marker);
}

#[test]
fn unknown_bits_show_as_question_mark_and_read_as_zero() {
    let mut c = BitCollector::new();
    feed_bits(&mut c, "1?????1?");
    let out = c.on_event(Event::DataFragReady);
    assert!(!out.frame_marker);
    let r = out.report.unwrap();
    assert_eq!(r.bits.iter().collect::<String>(), "1?????1?");
    assert_eq!(r.text.iter().collect::<String>(), "A");
}

#[test]
fn partial_byte_is_padded_with_zero_bits() {
    let mut c = BitCollector::new();
    feed_bits(&mut c, "1");
    let r = c.on_event(Event::DataFragReady).report.unwrap();
    assert_eq!(r.text, vec!['\u{1}']);
}

#[test]
fn malformed_utf8_shows_replacement() {
    let mut c = BitCollector::new();
    // 0xFF is never valid in UTF-8
    feed_bits(&mut c, "11111111");
    feed_bits(&mut c, &bits_of("a"));
    let r = c.on_event(Event::NewFrameReady).report.unwrap();
    assert_eq!(r.text.iter().collect::<String>(), "\u{FFFD}a");
}

#[test]
fn multibyte_utf8_decodes() {
    let mut c = BitCollector::new();
    feed_bits(&mut c, &bits_of("é→"));
    let r = c.on_event(Event::DataFragReady).report.unwrap();
    assert_eq!(r.text.iter().collect::<String>(), "é→");
}

#[test]
fn frame_without_bits_only_marks() {
    let mut c = BitCollector::new();
    let out = c.on_event(Event::NewFrameReady);
    assert!(out.report.is_none());
    assert!(out.frame_marker);
}

#[test]
fn full_string_drops_bits_but_counts_them() {
    let mut c = BitCollector::new();
    let many: String = std::iter::repeat("0").take(BIT_STRING_CAPACITY + 5).collect();
    feed_bits(&mut c, &many);
    assert_eq!(c.bit_counter(), BIT_STRING_CAPACITY + 5);
    let r = c.on_event(Event::DataFragReady).report.unwrap();
    assert_eq!(r.bits.len(), BIT_STRING_CAPACITY);
    assert_eq!(r.text, vec!['\u{0}'; BIT_STRING_CAPACITY / 8]);
}

#[test]
fn packing_unpacked_bytes_gives_them_back() {
    let bytes = vec![0x00u8, 0xFF, 0x5A, 0x81, 0x7E];
    let mut bits = Vec::new();
    for b in &bytes {
        for k in 0..8 {
            bits.push((b >> k) & 1 == 1);
        }
    }
    assert_eq!(pack_bits(&bits), bytes);
}
