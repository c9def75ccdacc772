use crate::command::{
    category_pairs, diff_line, export_line, flag_tokens, format_tokens, import_line, inspect_line,
    invocation_prefix, opt_text, opt_texts, scan_line,
};
use crate::text::{kept_trimmed, list_entries, split_on, trim, trim_end, trim_start};
use vstd::prelude::*;

verus! {

/// `category_pairs` holds `-c` at each even place and the categories, in order,
/// at the odd places.
pub proof fn category_pairs_interleave(cs: Seq<Seq<char>>)
    ensures
        category_pairs(cs).len() == 2 * cs.len(),
        forall|k: int| 0 <= k < cs.len() ==> #[trigger] category_pairs(cs)[2 * k] == "-c"@,
        forall|k: int| 0 <= k < cs.len() ==> #[trigger] category_pairs(cs)[2 * k + 1] == cs[k],
    decreases cs.len(),
{
    if cs.len() > 0 {
        let init = cs.drop_last();
        category_pairs_interleave(init);
        let whole = category_pairs(cs);
        assert(whole == category_pairs(init) + seq!["-c"@, cs.last()]);
        assert forall|k: int| 0 <= k < cs.len() implies #[trigger] whole[2 * k] == "-c"@ by {
            if k < init.len() {
                assert(category_pairs(init)[2 * k] == "-c"@);
            }
        }
        assert forall|k: int| 0 <= k < cs.len() implies #[trigger] whole[2 * k + 1] == cs[k] by {
            if k < init.len() {
                assert(category_pairs(init)[2 * k + 1] == init[k]);
            }
        }
    }
}

/// A scan's command line holds one `-c <category>` pair per category, in the
/// caller's order, right after the operation name; without categories it holds
/// none.
pub proof fn scan_lists_each_category(
    categories: Option<Vec<String>>,
    format: Option<String>,
    modified_only: Option<bool>,
)
    ensures
        ({
            let cs = opt_texts(categories);
            let line = scan_line(cs, opt_text(format), modified_only);
            let n = cs.len() as int;
            &&& line.subrange(0, 3) == invocation_prefix("scan"@)
            &&& forall|k: int|
                0 <= k < n ==> line[3 + 2 * k] == "-c"@ && #[trigger] line[3 + 2 * k + 1] == cs[k]
            &&& line.subrange(3 + 2 * n, line.len() as int) == format_tokens(opt_text(format))
                + flag_tokens(modified_only, "--modified-only"@)
        }),
        opt_texts(categories).len() == 0 ==> scan_line(
            opt_texts(categories),
            opt_text(format),
            modified_only,
        ) == invocation_prefix("scan"@) + format_tokens(opt_text(format)) + flag_tokens(
            modified_only,
            "--modified-only"@,
        ),
{
    let cs = opt_texts(categories);
    let f = format_tokens(opt_text(format));
    let m = flag_tokens(modified_only, "--modified-only"@);
    let line = scan_line(cs, opt_text(format), modified_only);
    category_pairs_interleave(cs);
    assert(line =~= invocation_prefix("scan"@) + category_pairs(cs) + (f + m));
    assert(line.subrange(0, 3) =~= invocation_prefix("scan"@));
    assert(line.subrange(3 + 2 * (cs.len() as int), line.len() as int) =~= f + m);
    assert forall|k: int| 0 <= k < cs.len() implies line[3 + 2 * k] == "-c"@ && #[trigger] line[3
        + 2 * k + 1] == cs[k] by {
        assert(category_pairs(cs)[2 * k] == "-c"@);
        assert(category_pairs(cs)[2 * k + 1] == cs[k]);
        assert(line[3 + 2 * k] == category_pairs(cs)[2 * k]);
        assert(line[3 + 2 * k + 1] == category_pairs(cs)[2 * k + 1]);
    }
    if cs.len() == 0 {
        assert(category_pairs(cs) =~= Seq::<Seq<char>>::empty());
        assert(line =~= invocation_prefix("scan"@) + f + m);
    }
}

/// Each boolean option adds its flag, alone and in its place, exactly when it
/// is present and true: the command line with the option false is the one with
/// it absent, and with it true it is that line with the bare flag inserted.
pub proof fn flags_only_when_set(
    path: Seq<char>,
    path_b: Seq<char>,
    cs: Seq<Seq<char>>,
    format: Option<Seq<char>>,
    other: Option<bool>,
)
    ensures
        scan_line(cs, format, Some(false)) == scan_line(cs, format, None),
        scan_line(cs, format, Some(true)) == scan_line(cs, format, None) + seq![
            "--modified-only"@,
        ],
        export_line(path, cs, Some(false)) == export_line(path, cs, None),
        export_line(path, cs, Some(true)) == export_line(path, cs, None) + seq![
            "--include-defaults"@,
        ],
        import_line(path, Some(false), other) == import_line(path, None, other),
        import_line(path, Some(true), other) == invocation_prefix("import"@) + seq![
            path,
            "--dry-run"@,
        ] + flag_tokens(other, "--skip-restore-point"@),
        import_line(path, other, Some(false)) == import_line(path, other, None),
        import_line(path, other, Some(true)) == import_line(path, other, None) + seq![
            "--skip-restore-point"@,
        ],
        diff_line(path, path_b, Some(false)) == diff_line(path, path_b, None),
        diff_line(path, path_b, Some(true)) == diff_line(path, path_b, None) + seq!["--all"@],
{
    let e = Seq::<Seq<char>>::empty();
    assert(scan_line(cs, format, Some(false)) =~= scan_line(cs, format, None));
    assert(scan_line(cs, format, None) =~= invocation_prefix("scan"@) + category_pairs(cs)
        + format_tokens(format) + e);
    assert(scan_line(cs, format, Some(true)) =~= scan_line(cs, format, None) + seq![
        "--modified-only"@,
    ]);
    assert(export_line(path, cs, Some(false)) =~= export_line(path, cs, None));
    assert(export_line(path, cs, Some(true)) =~= export_line(path, cs, None) + seq![
        "--include-defaults"@,
    ]);
    assert(import_line(path, Some(false), other) =~= import_line(path, None, other));
    assert(import_line(path, Some(true), other) =~= invocation_prefix("import"@) + seq![
        path,
        "--dry-run"@,
    ] + flag_tokens(other, "--skip-restore-point"@));
    assert(import_line(path, other, Some(false)) =~= import_line(path, other, None));
    assert(import_line(path, other, Some(true)) =~= import_line(path, other, None) + seq![
        "--skip-restore-point"@,
    ]);
    assert(diff_line(path, path_b, Some(false)) =~= diff_line(path, path_b, None));
    assert(diff_line(path, path_b, Some(true)) =~= diff_line(path, path_b, None) + seq!["--all"@]);
}

/// Inspecting and comparing always ask for JSON: `-f json` follows the paths,
/// whatever the other fields hold.
pub proof fn inspect_and_diff_ask_for_json(path: Seq<char>, path_b: Seq<char>, show_all: Option<bool>)
    ensures
        inspect_line(path).subrange(4, 6) == seq!["-f"@, "json"@],
        diff_line(path, path_b, show_all).subrange(5, 7) == seq!["-f"@, "json"@],
{
    assert(inspect_line(path).subrange(4, 6) =~= seq!["-f"@, "json"@]);
    assert(diff_line(path, path_b, show_all).subrange(5, 7) =~= seq!["-f"@, "json"@]);
}

/// An export whose category list is `"a, ,b"` asks for exactly the categories
/// `a` and `b`: each piece is trimmed and the blank one is dropped.
pub proof fn export_list_trims_and_drops_blanks(path: Seq<char>, include_defaults: Option<bool>)
    ensures
        export_line(path, list_entries("a, ,b"@), include_defaults) == invocation_prefix(
            "export"@,
        ) + seq![path, "-c"@, "a"@, "-c"@, "b"@] + flag_tokens(
            include_defaults,
            "--include-defaults"@,
        ),
{
    reveal_strlit("a, ,b");
    reveal_strlit("a");
    reveal_strlit("b");
    let s = "a, ,b"@;
    let a = seq!['a'];
    let sp = seq![' '];
    let b = seq!['b'];
    let e = Seq::<char>::empty();
    assert(s =~= seq!['a', ',', ' ', ',', 'b']);
    let s1 = seq!['a'];
    let s2 = seq!['a', ','];
    let s3 = seq!['a', ',', ' '];
    let s4 = seq!['a', ',', ' ', ','];
    assert(s1.drop_last() =~= e);
    assert(split_on(e, ',') =~= seq![e]);
    assert(split_on(s1, ',') =~= seq![a]);
    assert(s2.drop_last() =~= s1);
    assert(split_on(s2, ',') =~= seq![a, e]);
    assert(s3.drop_last() =~= s2);
    assert(e.push(' ') =~= sp);
    assert(split_on(s3, ',') =~= seq![a, sp]);
    assert(s4.drop_last() =~= s3);
    assert(split_on(s4, ',') =~= seq![a, sp, e]);
    assert(s.drop_last() =~= s4);
    assert(e.push('b') =~= b);
    assert(split_on(s, ',') =~= seq![a, sp, b]);
    assert(sp.drop_first() =~= e);
    assert(trim_start(sp) == trim_start(e));
    assert(trim(sp) =~= e);
    assert(trim(a) =~= a);
    assert(trim(b) =~= b);
    let pieces = seq![a, sp, b];
    assert(pieces.drop_last() =~= seq![a, sp]);
    assert(seq![a, sp].drop_last() =~= seq![a]);
    assert(seq![a].drop_last() =~= Seq::<Seq<char>>::empty());
    assert(kept_trimmed(Seq::<Seq<char>>::empty()) =~= Seq::<Seq<char>>::empty());
    assert(seq![a].last() == a);
    assert(trim(a).len() > 0);
    assert(kept_trimmed(seq![a]) =~= seq![a]);
    assert(kept_trimmed(seq![a, sp]) =~= seq![a]);
    assert(kept_trimmed(pieces) =~= seq![a, b]);
    assert("a"@ =~= a);
    assert("b"@ =~= b);
    assert(split_on(s, ',') == pieces);
    assert(list_entries(s) =~= seq!["a"@, "b"@]);
    let cs = seq!["a"@, "b"@];
    assert(cs.drop_last() =~= seq!["a"@]);
    assert(seq!["a"@].drop_last() =~= Seq::<Seq<char>>::empty());
    assert(category_pairs(Seq::<Seq<char>>::empty()) =~= Seq::<Seq<char>>::empty());
    assert(category_pairs(seq!["a"@]) =~= seq!["-c"@, "a"@]);
    assert(category_pairs(cs) =~= seq!["-c"@, "a"@, "-c"@, "b"@]);
    assert(export_line(path, cs, include_defaults) =~= invocation_prefix("export"@) + seq![
        path,
        "-c"@,
        "a"@,
        "-c"@,
        "b"@,
    ] + flag_tokens(include_defaults, "--include-defaults"@));
}

} // verus!
