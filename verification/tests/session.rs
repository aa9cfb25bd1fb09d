use parse_cursor::error::{Emitter, ParserError, SimpleError};
use parse_cursor::memo::MemoTable;
use parse_cursor::primitive::{CharInput, SliceTokens};
use parse_cursor::session::{AnyTok, InputOwn, InputRef, Marker};
use parse_cursor::SimpleSpan;

type CharErr = SimpleError<char, SimpleSpan>;
type Own = InputOwn<CharInput, CharErr, u32, ()>;
type Ref = InputRef<CharInput, CharErr, u32, ()>;

fn chars(s: &str) -> Vec<char> {
    s.chars().collect()
}

fn session(s: &str) -> Ref {
    Own::new(CharInput::new(chars(s))).as_ref_start()
}

fn sp(start: usize, end: usize) -> SimpleSpan {
    SimpleSpan { start, end }
}

#[test]
fn rewind_discards_the_abandoned_branch() {
    let mut inp = session("abc");
    assert_eq!(inp.next(), Some('a'));
    assert_eq!(inp.offset().off, 1);
    let m = inp.save();
    assert_eq!(inp.next(), Some('b'));
    assert_eq!(inp.next(), Some('c'));
    assert_eq!(inp.offset().off, 3);
    inp.emit(3, SimpleError { expected: vec![], found: None, span: sp(3, 3) });
    assert_eq!(inp.own.errors.secondary.len(), 1);
    inp.rewind(m);
    assert_eq!(inp.offset().off, 1);
    assert_eq!(inp.own.errors.secondary.len(), 0);
}

#[test]
fn rewind_round_trip_is_identity() {
    let mut inp = session("xyz");
    inp.emit(0, SimpleError { expected: vec![], found: Some('x'), span: sp(0, 0) });
    assert_eq!(inp.next(), Some('x'));
    let m = inp.save();
    let offset_at_save = inp.offset().off;
    let log_len_at_save = inp.own.errors.secondary.len();
    assert_eq!(inp.next(), Some('y'));
    inp.emit(2, SimpleError { expected: vec![], found: Some('z'), span: sp(2, 2) });
    inp.rewind(m);
    assert_eq!(inp.offset().off, offset_at_save);
    assert_eq!(inp.own.errors.secondary.len(), log_len_at_save);
    // the diagnostic emitted before the save survives the rewind
    assert_eq!(inp.own.errors.secondary[0].pos, 0);
    // reading again yields the same token as right after the save
    assert_eq!(inp.next(), Some('y'));
}

#[test]
fn marker_offset_handle() {
    let mut inp = session("ab");
    inp.next();
    let m: Marker = inp.save();
    assert_eq!(m.offset().off, 1);
    let since = inp.span_since(m.offset());
    assert_eq!(since, sp(1, 1));
    inp.next();
    // span of what was parsed since the marker
    let since = inp.span_since(m.offset());
    assert_eq!(since, sp(1, 2));
}

#[test]
fn alt_priority_deeper_failure_wins() {
    // recording failures at p1 < p2 in either order retains position p2
    let mut inp = session("abc");
    inp.add_alt(1, vec![Some('u')], Some('b'), sp(1, 2));
    inp.add_alt(2, vec![Some('v')], Some('c'), sp(2, 3));
    let alt = inp.own.errors.alt.as_ref().unwrap();
    assert_eq!(alt.pos, 2);
    assert_eq!(alt.err.expected, vec![Some('v')]);

    let mut inp = session("abc");
    inp.add_alt(2, vec![Some('v')], Some('c'), sp(2, 3));
    inp.add_alt(1, vec![Some('u')], Some('b'), sp(1, 2));
    let alt = inp.own.errors.alt.as_ref().unwrap();
    assert_eq!(alt.pos, 2);
    assert_eq!(alt.err.expected, vec![Some('v')]);
}

#[test]
fn equal_position_merge_unites_expectations() {
    let mut inp = session("ab");
    inp.add_alt(1, vec![Some('x')], Some('b'), sp(1, 2));
    inp.add_alt(1, vec![Some('y')], Some('b'), sp(1, 2));
    let alt = inp.own.errors.alt.as_ref().unwrap();
    assert_eq!(alt.pos, 1);
    assert!(alt.err.expected.contains(&Some('x')));
    assert!(alt.err.expected.contains(&Some('y')));
    // the retained found and span are kept on a merge
    assert_eq!(alt.err.found, Some('b'));
    assert_eq!(alt.err.span, sp(1, 2));
}

#[test]
fn merge_idempotence_keeps_information() {
    // recording the same expected/found failure twice at one position never
    // loses what a single recording reports
    let mut inp = session("ab");
    inp.add_alt(1, vec![Some('x')], Some('b'), sp(1, 2));
    inp.add_alt(1, vec![Some('x')], Some('b'), sp(1, 2));
    let alt = inp.own.errors.alt.as_ref().unwrap();
    assert_eq!(alt.pos, 1);
    assert!(alt.err.expected.contains(&Some('x')));
}

#[test]
fn equal_position_eof_failure_replaces() {
    // a found-nothing failure at the same position supersedes the retained
    // expectations
    let mut inp = session("ab");
    inp.add_alt(2, vec![Some('x')], Some('b'), sp(1, 2));
    inp.add_alt(2, vec![Some('y')], None, sp(2, 2));
    let alt = inp.own.errors.alt.as_ref().unwrap();
    assert_eq!(alt.pos, 2);
    assert_eq!(alt.err.expected, vec![Some('y')]);
    assert_eq!(alt.err.found, None);
    assert_eq!(alt.err.span, sp(2, 2));
}

#[test]
fn add_alt_err_merges_at_equal_position() {
    let mut inp = session("ab");
    inp.add_alt_err(1, SimpleError { expected: vec![Some('x')], found: Some('b'), span: sp(1, 2) });
    inp.add_alt_err(1, SimpleError { expected: vec![Some('y')], found: Some('b'), span: sp(1, 2) });
    let alt = inp.own.errors.alt.as_ref().unwrap();
    assert_eq!(alt.pos, 1);
    assert_eq!(alt.err.expected, vec![Some('x'), Some('y')]);

    inp.add_alt_err(0, SimpleError { expected: vec![Some('z')], found: Some('a'), span: sp(0, 1) });
    let alt = inp.own.errors.alt.as_ref().unwrap();
    assert_eq!(alt.pos, 1, "a shallower failure never displaces a deeper one");
}

#[test]
fn emit_appends_and_into_errs_drains_in_order() {
    let mut inp = session("ab");
    inp.emit(0, SimpleError { expected: vec![Some('a')], found: None, span: sp(0, 0) });
    inp.emit(1, SimpleError { expected: vec![Some('b')], found: None, span: sp(1, 1) });
    let errs = inp.into_own().into_errs();
    assert_eq!(errs.len(), 2);
    assert_eq!(errs[0].expected, vec![Some('a')]);
    assert_eq!(errs[1].expected, vec![Some('b')]);
}

#[test]
fn secondary_errors_since_slices_the_log() {
    let mut inp = session("ab");
    inp.emit(0, SimpleError { expected: vec![], found: None, span: sp(0, 0) });
    inp.emit(1, SimpleError { expected: vec![], found: None, span: sp(1, 1) });
    let own = inp.into_own();
    assert_eq!(own.errors.secondary_errors_since(0).len(), 2);
    assert_eq!(own.errors.secondary_errors_since(1).len(), 1);
    assert_eq!(own.errors.secondary_errors_since(1)[0].pos, 1);
    assert_eq!(own.errors.secondary_errors_since(5).len(), 0);
}

#[test]
fn emitter_collects_in_order() {
    let mut em: Emitter<u32> = Emitter::new();
    em.emit(3);
    em.emit(4);
    assert_eq!(em.errors(), vec![3, 4]);
}

#[test]
fn parse_any_token() {
    let mut inp = session("a");
    let r: Result<char, CharErr> = inp.parse(&AnyTok);
    assert_eq!(r.unwrap(), 'a');
    assert_eq!(inp.offset().off, 1);
    // at the end of the input the parser fails and hands back the best alt
    let r: Result<char, CharErr> = inp.parse(&AnyTok);
    let e = r.unwrap_err();
    assert_eq!(e.found, None);
    assert_eq!(e.span, sp(1, 1));
    assert!(inp.own.errors.alt.is_none(), "parse takes the alt failure out");
}

#[test]
fn check_any_token() {
    let mut inp = session("");
    let r: Result<(), CharErr> = inp.check(&AnyTok);
    assert!(r.is_err());
    let mut inp = session("q");
    let r: Result<(), CharErr> = inp.check(&AnyTok);
    assert!(r.is_ok());
}

#[test]
fn peek_does_not_advance() {
    let mut inp = session("ab");
    assert_eq!(inp.peek(), Some('a'));
    assert_eq!(inp.peek_maybe(), Some(&'a'));
    assert_eq!(inp.offset().off, 0);
    inp.skip();
    assert_eq!(inp.peek(), Some('b'));
    inp.skip();
    assert_eq!(inp.peek(), None);
    inp.skip();
    assert_eq!(inp.offset().off, 2, "skipping at the end stays in place");
}

#[test]
fn skip_while_takes_maximal_run() {
    let mut inp = session("12ab");
    inp.skip_while(&|c: &char| c.is_ascii_digit());
    assert_eq!(inp.offset().off, 2);
    assert_eq!(inp.peek(), Some('a'));
    // skipping to the very end stops there
    let mut inp = session("99");
    inp.skip_while(&|c: &char| c.is_ascii_digit());
    assert_eq!(inp.offset().off, 2);
}

#[test]
fn state_is_shared_and_mutable() {
    let mut inp: Ref = Own::new_state(CharInput::new(chars("a")), 41).as_ref_start();
    *inp.state() += 1;
    assert_eq!(*inp.state(), 42);
    assert_eq!(inp.ctx(), &());
}

#[test]
fn with_ctx_substitutes_and_restores_context() {
    let own: InputOwn<CharInput, CharErr, u32, u8> =
        InputOwn::new_state(CharInput::new(chars("ab")), 0);
    let inp = own.as_ref_start();
    let (inp, seen) = inp.with_ctx(9u16, |mut child| {
        let c = *child.ctx();
        child.next();
        (child, c)
    });
    assert_eq!(seen, 9u16);
    assert_eq!(*inp.ctx(), 0u8, "the original context is restored");
    assert_eq!(inp.offset().off, 1, "the child's final offset is kept");
}

#[test]
fn with_input_parses_an_embedded_stream() {
    let mut inp = session("ab");
    inp.next();
    let embedded = CharInput::new(chars("zz"));
    let (inp, got, _embedded, _memos) =
        inp.with_input(embedded, MemoTable::new(), |mut child| {
            assert_eq!(child.offset().off, 0, "the child starts at the new input's start");
            let got = child.next();
            (child, got)
        });
    assert_eq!(got, Some('z'));
    assert_eq!(inp.offset().off, 1, "the parent's position is untouched");
}

#[test]
fn memo_table_records_outcomes() {
    let mut memos = MemoTable::new();
    assert_eq!(memos.get(0, 7), None);
    assert_eq!(memos.insert(0, 7, Some(3)), None);
    assert_eq!(memos.get(0, 7), Some(Some(3)));
    assert_eq!(memos.insert(0, 7, None), Some(Some(3)));
    assert_eq!(memos.get(0, 7), Some(None));
    assert_eq!(memos.remove(0, 7), Some(None));
    assert_eq!(memos.get(0, 7), None);
}

#[test]
fn slices_and_spans_from_the_cursor() {
    let own: InputOwn<SliceTokens<u8>, SimpleError<u8, SimpleSpan>, (), ()> =
        InputOwn::new(SliceTokens::new(vec![1, 2, 3]));
    let mut inp = own.as_ref_start();
    let a = inp.offset();
    inp.next();
    inp.next();
    let b = inp.offset();
    assert_eq!(inp.slice(a, b), &[1, 2]);
    assert_eq!(inp.slice_from(b), &[3]);
    assert_eq!(inp.slice_trailing(), &[3]);
    assert_eq!(inp.span(a, b), sp(0, 2));
    assert_eq!(inp.span_from(b), sp(2, 3));
    assert_eq!(inp.span_since(a), sp(0, 2));
}

#[test]
fn error_operations_follow_the_policy() {
    let e = CharErr::expected_found(vec![Some('a')], Some('b'), sp(0, 1));
    let merged = e.merge(CharErr::expected_found(vec![Some('c')], Some('d'), sp(5, 6)));
    assert_eq!(merged.expected, vec![Some('a'), Some('c')]);
    assert_eq!(merged.found, Some('b'), "merge keeps the retained found");
    assert_eq!(merged.span, sp(0, 1), "merge keeps the retained span");
    let replaced = merged.replace_expected_found(vec![None], None, sp(2, 2));
    assert_eq!(replaced.expected, vec![None]);
    assert_eq!(replaced.found, None);
    assert_eq!(replaced.span, sp(2, 2));
}

#[test]
fn cursor_memoizes_outcomes_at_its_position() {
    let mut inp = session("ab");
    let start = inp.save();
    assert_eq!(inp.memo_get(4), None);
    inp.memo_insert(0, 4, Some(1));
    assert_eq!(inp.memo_get(4), Some(Some(1)));
    inp.next();
    assert_eq!(inp.memo_get(4), None, "the lookup is keyed by the current position");
    inp.rewind(start);
    assert_eq!(inp.memo_get(4), Some(Some(1)), "rewinding does not discard memo entries");
    inp.memo_remove(0, 4);
    assert_eq!(inp.memo_get(4), None);
}
