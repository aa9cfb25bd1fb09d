use parse_cursor::context::WithContext;
use parse_cursor::input::{BorrowInput, ExactSizeInput, Input, SliceInput, ValueInput};
use parse_cursor::primitive::{ArrayTokens, CharInput, SliceTokens};
use parse_cursor::spanned::SpannedInput;
use parse_cursor::SimpleSpan;

fn chars(s: &str) -> Vec<char> {
    s.chars().collect()
}

#[test]
fn char_stream_reads_in_order() {
    let inp = CharInput::new(chars("ab"));
    assert_eq!(inp.start(), 0);
    let (o1, t1) = inp.next(0);
    assert_eq!((o1, t1), (1, Some('a')));
    let (o2, t2) = inp.next(o1);
    assert_eq!((o2, t2), (2, Some('b')));
    let (o3, t3) = inp.next(o2);
    assert_eq!((o3, t3), (2, None));
    assert_eq!(inp.span(0, 2), SimpleSpan { start: 0, end: 2 });
}

#[test]
fn string_adapter_reads_by_reference() {
    let inp = CharInput::new(chars("ab"));
    let (o1, t1) = inp.next_maybe(0);
    assert_eq!((o1, t1), (1, Some(&'a')));
    let (o2, t2) = inp.next_maybe(o1);
    assert_eq!((o2, t2), (2, Some(&'b')));
    assert_eq!(inp.next_maybe(2), (2, None));
}

#[test]
fn array_stream_reads_and_slices() {
    let inp = ArrayTokens::new([10, 20, 30]);
    let (o1, t1) = inp.next(0);
    let (o2, t2) = inp.next(o1);
    let (o3, t3) = inp.next(o2);
    assert_eq!((t1, t2, t3), (Some(10), Some(20), Some(30)));
    let (o4, t4) = inp.next(o3);
    assert_eq!((o4, t4), (3, None));

    let (_, r1) = inp.next_ref(0);
    let (_, r2) = inp.next_ref(1);
    let (_, r3) = inp.next_ref(2);
    assert_eq!((r1, r2, r3), (Some(&10), Some(&20), Some(&30)));
    assert_eq!(inp.next_ref(3), (3, None));

    assert_eq!(inp.slice(1, 3), &[20, 30]);
}

#[test]
fn slice_adapter_reads() {
    let inp = SliceTokens::new(vec![5u64, 6, 7]);
    assert_eq!(inp.next_ref(0), (1, Some(&5)));
    assert_eq!(inp.next(2), (3, Some(7)));
    assert_eq!(inp.next(3), (3, None));
    assert_eq!(inp.slice(0, 2), &[5, 6]);
    assert_eq!(inp.slice_from(1), &[6, 7]);
}

#[test]
fn monotonic_offsets_until_exhausted() {
    let inp = SliceTokens::new(vec![1u8, 2, 3, 4]);
    let mut offset = inp.start();
    let mut seen = Vec::new();
    loop {
        let (next, tok) = inp.next_maybe(offset);
        assert!(next >= offset);
        match tok {
            Some(t) => {
                assert_eq!(next, offset + 1);
                seen.push(*t);
                offset = next;
            }
            None => {
                assert_eq!(next, offset);
                assert_eq!(offset, 4);
                break;
            }
        }
    }
    assert_eq!(seen, vec![1, 2, 3, 4]);
    // once exhausted, reads keep yielding nothing at the same offset
    assert_eq!(inp.next_maybe(offset), (4, None));
}

#[test]
fn slice_concat_and_span_from() {
    let inp = CharInput::new(chars("abcd"));
    let left = inp.slice(0, 2).to_vec();
    let right = inp.slice(2, 4).to_vec();
    let whole = inp.slice(0, 4).to_vec();
    let mut glued = left.clone();
    glued.extend_from_slice(&right);
    assert_eq!(glued, whole);
    assert_eq!(inp.span_from(1), inp.span(1, 4));
    assert_eq!(inp.span_from(1), SimpleSpan { start: 1, end: 4 });
}

#[test]
fn spanned_wrapper_derives_spans() {
    let toks = vec![('x', SimpleSpan { start: 0, end: 1 }), ('y', SimpleSpan { start: 1, end: 2 })];
    let sp = SpannedInput::new(SliceTokens::new(toks), SimpleSpan { start: 2, end: 2 });
    assert_eq!(sp.span(0, 2), SimpleSpan { start: 0, end: 2 });
    // empty range at the end of the input falls back to the end-of-input span
    assert_eq!(sp.span(2, 2), SimpleSpan { start: 2, end: 2 });
}

#[test]
fn spanned_wrapper_reads_and_slices() {
    let toks = vec![('x', SimpleSpan { start: 0, end: 1 }), ('y', SimpleSpan { start: 1, end: 2 })];
    let sp = SpannedInput::new(SliceTokens::new(toks.clone()), SimpleSpan { start: 2, end: 2 });
    assert_eq!(sp.next(0), (1, Some('x')));
    assert_eq!(sp.next_ref(1), (2, Some(&'y')));
    assert_eq!(sp.next(2), (2, None));
    // slices are of the underlying token-span pairs
    assert_eq!(sp.slice(0, 2), &toks[..]);
    assert_eq!(sp.span_from(1), SimpleSpan { start: 1, end: 2 });
}

#[test]
fn with_context_attaches_context() {
    let inp = WithContext::new(CharInput::new(chars("hi")), 7u32);
    assert_eq!(inp.next(0), (1, Some('h')));
    assert_eq!(inp.next_maybe(1), (2, Some(&'i')));
    assert_eq!(inp.span(0, 2), (7u32, SimpleSpan { start: 0, end: 2 }));
    assert_eq!(inp.span_from(1), (7u32, SimpleSpan { start: 1, end: 2 }));
    assert_eq!(inp.slice(0, 1), &['h']);
}

#[test]
fn prev_saturates_at_zero() {
    assert_eq!(<CharInput as Input>::prev(0), 0);
    assert_eq!(<CharInput as Input>::prev(5), 4);
}

#[test]
fn utf8_round_trip() {
    let text = "héλ🦀";
    let inp = CharInput::from_text(text);
    let toks: Vec<char> = text.chars().collect();
    let (_, t0) = inp.next(0);
    assert_eq!(t0, Some(toks[0]));
    let bytes = inp.to_utf8();
    assert_eq!(bytes, text.as_bytes());
    let again = CharInput::from_utf8(&bytes).expect("the encoding of a stream is valid");
    assert_eq!(again.to_utf8(), bytes);
}

#[test]
fn utf8_decodes_one_code_point_per_step() {
    let inp = CharInput::from_text("aé🦀");
    assert_eq!(inp.next(0), (1, Some('a')));
    assert_eq!(inp.next(1), (2, Some('é')));
    assert_eq!(inp.next(2), (3, Some('🦀')));
    assert_eq!(inp.next(3), (3, None));
}

#[test]
fn utf8_rejects_malformed_bytes() {
    // lone continuation byte
    assert!(CharInput::from_utf8(&[0x80]).is_none());
    // overlong encoding of NUL
    assert!(CharInput::from_utf8(&[0xC0, 0x80]).is_none());
    // encoded surrogate
    assert!(CharInput::from_utf8(&[0xED, 0xA0, 0x80]).is_none());
    // truncated three-byte encoding
    assert!(CharInput::from_utf8(&[0xE2, 0x82]).is_none());
    // byte that can never lead an encoding
    assert!(CharInput::from_utf8(&[0xF8]).is_none());
    // beyond the last scalar value
    assert!(CharInput::from_utf8(&[0xF4, 0x90, 0x80, 0x80]).is_none());
}

#[test]
fn utf8_accepts_valid_bytes() {
    let inp = CharInput::from_utf8("ok€".as_bytes()).expect("valid text");
    assert_eq!(inp.next(2), (3, Some('€')));
    assert_eq!(inp.len(), 3);
}
