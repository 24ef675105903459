use lumen::erlang::atom_to_list_1;
use lumen::erlang::is_equal_or_less_than_2;
use lumen::erlang::list_to_tuple_1;
use lumen::erlang::BadArgument;
use lumen::term::{Comparison, Term};

fn list(elements: Vec<Term>) -> Term {
    let mut list = Term::Nil;
    for element in elements.into_iter().rev() {
        list = Term::cons(element, list);
    }
    list
}

#[test]
fn atom_holds_its_name() {
    assert_eq!(Term::atom("ok"), Term::Atom(String::from("ok")));
    assert_eq!(Term::atom(""), Term::Atom(String::new()));
    assert_ne!(Term::atom("ok"), Term::atom("Ok"));
}

#[test]
fn boolean_is_the_atom_true_or_false() {
    assert_eq!(Term::boolean(true), Term::atom("true"));
    assert_eq!(Term::boolean(false), Term::atom("false"));
}

#[test]
fn infinity_is_recognised_by_its_name_only() {
    assert!(Term::atom("infinity").is_infinity());
    assert!(!Term::atom("infinite").is_infinity());
    assert!(!Term::atom("infinit").is_infinity());
    assert!(!Term::atom("infinity ").is_infinity());
    assert!(!Term::binary(b"infinity".to_vec()).is_infinity());
    assert!(!Term::integer(0).is_infinity());
}

#[test]
fn deep_copy_equals_its_source() {
    let term = Term::tuple(vec![
        Term::atom("hello"),
        list(vec![Term::integer(1), Term::binary(vec![1, 2, 3])]),
        Term::tuple(vec![]),
    ]);
    assert_eq!(term.deep_copy(), term);
}

#[test]
fn words_of_immediates_are_zero() {
    assert_eq!(Term::integer(5).words(), Some(0));
    assert_eq!(Term::atom("a").words(), Some(0));
    assert_eq!(Term::Nil.words(), Some(0));
}

#[test]
fn words_count_cells_headers_and_bytes() {
    assert_eq!(Term::cons(Term::integer(1), Term::Nil).words(), Some(2));
    assert_eq!(list(vec![Term::integer(1), Term::integer(2), Term::integer(3)]).words(), Some(6));
    assert_eq!(Term::tuple(vec![]).words(), Some(1));
    assert_eq!(Term::tuple(vec![Term::integer(1), Term::integer(2)]).words(), Some(3));
    assert_eq!(Term::binary(vec![]).words(), Some(2));
    assert_eq!(Term::binary(vec![0; 7]).words(), Some(2));
    assert_eq!(Term::binary(vec![0; 8]).words(), Some(3));
    assert_eq!(Term::binary(vec![0; 17]).words(), Some(4));
    // {[1], <<0 x 8>>}: 1 + 2 for the tuple, 2 for the cell, 3 for the binary
    let nested = Term::tuple(vec![list(vec![Term::integer(1)]), Term::binary(vec![0; 8])]);
    assert_eq!(nested.words(), Some(8));
}

#[test]
fn types_sort_integer_atom_tuple_nil_list_binary() {
    let ordered = vec![
        Term::integer(i64::MAX),
        Term::atom(""),
        Term::tuple(vec![]),
        Term::Nil,
        Term::cons(Term::integer(0), Term::Nil),
        Term::binary(vec![]),
    ];
    for i in 0..ordered.len() {
        for j in 0..ordered.len() {
            let expected = if i < j {
                Comparison::Less
            } else if i > j {
                Comparison::Greater
            } else {
                Comparison::Equal
            };
            assert_eq!(ordered[i].compare(&ordered[j]), expected);
            assert_eq!(ordered[i].type_rank() as usize, i);
        }
    }
}

#[test]
fn integers_sort_by_value() {
    assert_eq!(Term::integer(-1).compare(&Term::integer(0)), Comparison::Less);
    assert_eq!(Term::integer(3).compare(&Term::integer(3)), Comparison::Equal);
    assert_eq!(Term::integer(i64::MAX).compare(&Term::integer(i64::MIN)), Comparison::Greater);
}

#[test]
fn atoms_beyond_ascii_sort_by_their_utf8_bytes() {
    // 'z' is one byte, 'é' two, '€' three, '𝄞' four
    assert_eq!(Term::atom("z").compare(&Term::atom("é")), Comparison::Less);
    assert_eq!(Term::atom("é").compare(&Term::atom("€")), Comparison::Less);
    assert_eq!(Term::atom("€").compare(&Term::atom("𝄞")), Comparison::Less);
    assert_eq!(Term::atom("𝄞").compare(&Term::atom("é")), Comparison::Greater);
    assert_eq!(Term::atom("é").compare(&Term::atom("é")), Comparison::Equal);
}

#[test]
fn atoms_and_binaries_sort_by_bytes() {
    assert_eq!(Term::atom("a").compare(&Term::atom("b")), Comparison::Less);
    assert_eq!(Term::atom("ab").compare(&Term::atom("a")), Comparison::Greater);
    assert_eq!(Term::atom("").compare(&Term::atom("a")), Comparison::Less);
    assert_eq!(Term::atom("abc").compare(&Term::atom("abc")), Comparison::Equal);
    assert_eq!(Term::atom("b").compare(&Term::atom("ab")), Comparison::Greater);
    assert_eq!(Term::binary(vec![1, 2]).compare(&Term::binary(vec![1, 3])), Comparison::Less);
    assert_eq!(Term::binary(vec![2]).compare(&Term::binary(vec![1, 3])), Comparison::Greater);
    assert_eq!(Term::binary(vec![1]).compare(&Term::binary(vec![1, 0])), Comparison::Less);
}

#[test]
fn tuples_sort_by_size_then_elements() {
    let short = Term::tuple(vec![Term::integer(9)]);
    let long = Term::tuple(vec![Term::integer(0), Term::integer(0)]);
    assert_eq!(short.compare(&long), Comparison::Less);
    assert_eq!(long.compare(&short), Comparison::Greater);
    let a = Term::tuple(vec![Term::integer(1), Term::atom("a")]);
    let b = Term::tuple(vec![Term::integer(1), Term::atom("b")]);
    assert_eq!(a.compare(&b), Comparison::Less);
    assert_eq!(b.compare(&a), Comparison::Greater);
    assert_eq!(a.compare(&a.deep_copy()), Comparison::Equal);
}

#[test]
fn lists_sort_by_head_then_tail() {
    let a = list(vec![Term::integer(1), Term::integer(2)]);
    let b = list(vec![Term::integer(1), Term::integer(3)]);
    let c = list(vec![Term::integer(1)]);
    assert_eq!(a.compare(&b), Comparison::Less);
    assert_eq!(b.compare(&a), Comparison::Greater);
    // [1] against [1, 2]: the tails are [] and [2], and [] sorts first
    assert_eq!(c.compare(&a), Comparison::Less);
    assert_eq!(a.compare(&a.deep_copy()), Comparison::Equal);
}

#[test]
fn equal_or_less_than_is_false_only_for_greater() {
    assert_eq!(
        is_equal_or_less_than_2::result(&Term::integer(1), &Term::integer(2)),
        Term::boolean(true)
    );
    assert_eq!(
        is_equal_or_less_than_2::result(&Term::integer(2), &Term::integer(2)),
        Term::boolean(true)
    );
    assert_eq!(
        is_equal_or_less_than_2::result(&Term::integer(3), &Term::integer(2)),
        Term::boolean(false)
    );
}

#[test]
fn list_to_tuple_of_empty_list_is_empty_tuple() {
    assert_eq!(list_to_tuple_1::result(&Term::Nil), Ok(Term::tuple(vec![])));
}

#[test]
fn list_to_tuple_keeps_elements_in_order() {
    let source = list(vec![Term::integer(1), Term::atom("two"), list(vec![Term::integer(3)])]);
    let expected =
        Term::tuple(vec![Term::integer(1), Term::atom("two"), list(vec![Term::integer(3)])]);
    assert_eq!(list_to_tuple_1::result(&source), Ok(expected));
}

#[test]
fn list_to_tuple_rejects_improper_list() {
    let improper = Term::cons(Term::integer(1), Term::integer(2));
    assert_eq!(list_to_tuple_1::result(&improper), Err(BadArgument::ImproperListError));
    let longer = Term::cons(Term::integer(0), improper);
    assert_eq!(list_to_tuple_1::result(&longer), Err(BadArgument::ImproperListError));
}

#[test]
fn list_to_tuple_rejects_what_is_no_list() {
    assert_eq!(list_to_tuple_1::result(&Term::integer(1)), Err(BadArgument::TypeError));
    assert_eq!(list_to_tuple_1::result(&Term::atom("a")), Err(BadArgument::TypeError));
    assert_eq!(list_to_tuple_1::result(&Term::tuple(vec![])), Err(BadArgument::TypeError));
    assert_eq!(list_to_tuple_1::result(&Term::binary(vec![1])), Err(BadArgument::TypeError));
}

#[test]
fn atom_to_list_gives_the_code_points_in_order() {
    assert_eq!(
        atom_to_list_1::result(&Term::atom("abc")),
        Ok(list(vec![Term::integer(97), Term::integer(98), Term::integer(99)]))
    );
    assert_eq!(
        atom_to_list_1::result(&Term::atom("é€𝄞")),
        Ok(list(vec![Term::integer(0xE9), Term::integer(0x20AC), Term::integer(0x1D11E)]))
    );
}

#[test]
fn atom_to_list_of_the_empty_name_is_the_empty_list() {
    assert_eq!(atom_to_list_1::result(&Term::atom("")), Ok(Term::Nil));
}

#[test]
fn atom_to_list_rejects_what_is_no_atom() {
    assert_eq!(atom_to_list_1::result(&Term::integer(1)), Err(BadArgument::TypeError));
    assert_eq!(atom_to_list_1::result(&Term::Nil), Err(BadArgument::TypeError));
    assert_eq!(atom_to_list_1::result(&Term::binary(vec![97])), Err(BadArgument::TypeError));
    assert_eq!(
        atom_to_list_1::result(&Term::cons(Term::integer(97), Term::Nil)),
        Err(BadArgument::TypeError)
    );
}
