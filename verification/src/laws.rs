//! Laws of the viewer that span its operations.
use vstd::prelude::*;
use crate::app::{
    candidate_after, candidate_before, changed_directory, clamped, entry_visible, help_above,
    help_below, index_above, index_below, moved_down, moved_up, normalized_filter, refiltered,
    visible_entries, AppModel, EntryModel, Mode,
};
use crate::app::reloaded;
use crate::base64::{base64, digit, encode_group};
use crate::commands::{index_named, refreshed, reselected, selected_of};
use crate::command::{offered, CommandModel};
use crate::keys::{key_step, Key, KeyEffectModel};
use crate::status::{ellipsis, truncated};
use crate::app::ShellModel;
use crate::command::{help_listing, CommandId, HelpModel};
use crate::commands::{cp_target, same_path, shell_reported, yank_plan, CopyDestModel, CpPlanModel};
use crate::dispatch::{help_pick, ActionModel};
use crate::path::{path_join, resolved_path};
use crate::text::{is_ws, trim};
use crate::number::signed_decimal;

verus! {

/// The parent entry `..` stays visible under every filter.
pub proof fn law_filter_keeps_parent(all: Seq<EntryModel>, f: Seq<char>, i: int)
    requires
        0 <= i < all.len(),
        all[i].name == ".."@,
    ensures
        visible_entries(all, f).contains(all[i]),
{
    let n = normalized_filter(f);
    all.lemma_filter_contains(|e: EntryModel| entry_visible(e, n), i);
}

proof fn lemma_filter_all<A>(s: Seq<A>, p: spec_fn(A) -> bool)
    requires
        forall|i: int| 0 <= i < s.len() ==> p(#[trigger] s[i]),
    ensures
        s.filter(p) == s,
    decreases s.len(),
{
    reveal_with_fuel(Seq::<_>::filter, 1);
    if s.len() > 0 {
        lemma_filter_all(s.drop_last(), p);
        assert(s.drop_last().push(s.last()) =~= s);
    } else {
        assert(s.filter(p) =~= s);
    }
}

/// A filter that is blank once trimmed shows the whole listing, in order.
pub proof fn law_blank_filter_shows_all(all: Seq<EntryModel>, f: Seq<char>)
    requires
        crate::text::trim(f).len() == 0,
    ensures
        visible_entries(all, f) == all,
{
    let n = normalized_filter(f);
    lemma_filter_all(all, |e: EntryModel| entry_visible(e, n));
}

/// Every visible entry comes from the listing, and is either `..` or has a
/// lower-cased name that contains the trimmed, lower-cased filter.
pub proof fn law_visible_entries_match(all: Seq<EntryModel>, f: Seq<char>, j: int)
    requires
        0 <= j < visible_entries(all, f).len(),
    ensures
        all.contains(visible_entries(all, f)[j]),
        entry_visible(visible_entries(all, f)[j], normalized_filter(f)),
{
    let n = normalized_filter(f);
    let p = |e: EntryModel| entry_visible(e, n);
    all.lemma_filter_pred(p, j);
    assert(all.filter(p).contains(all.filter(p)[j]));
    all.lemma_filter_contains_rev(p, all.filter(p)[j]);
}

/// After the filter is applied, the selection points into the visible list,
/// or is 0 when nothing is visible.
pub proof fn law_selection_stays_in_range(a: AppModel)
    ensures
        refiltered(a).entries.len() == 0 ==> refiltered(a).selected_index == 0,
        refiltered(a).entries.len() > 0 ==> refiltered(a).selected_index < refiltered(a).entries.len(),
{
}

/// Moving into a directory leaves Browse mode on, the filter empty and the
/// first entry selected.
pub proof fn law_directory_change_resets(a: AppModel, dir: Seq<char>, l: Result<Seq<EntryModel>, Seq<char>>)
    ensures
        changed_directory(a, dir, l).current_dir == dir,
        changed_directory(a, dir, l).mode == Mode::Browse,
        changed_directory(a, dir, l).filter_input.len() == 0,
        changed_directory(a, dir, l).selected_index == 0,
{
}

/// In a list of `n` items, going up then down (or down then up) comes back
/// to the same item; going up from the top reaches the bottom and going
/// down from the bottom reaches the top.
pub proof fn law_wrapping_moves_undo(i: usize, n: nat)
    requires
        i < n,
        n <= usize::MAX,
    ensures
        index_below(index_above(i, n), n) == i,
        index_above(index_below(i, n), n) == i,
        i == 0 ==> index_above(i, n) == n - 1,
        i == n - 1 ==> index_below(i, n) == 0,
        help_below(help_above(i, n), n) == i,
        help_above(help_below(i, n), n) == i,
{
}

/// While browsing a listing that is not empty, Up then Down comes back to
/// the selected entry.
pub proof fn law_browse_up_then_down(a: AppModel)
    requires
        a.mode != Mode::Command,
        a.selected_index < a.entries.len(),
        a.entries.len() <= usize::MAX,
    ensures
        moved_down(moved_up(a)).selected_index == a.selected_index,
        moved_up(moved_down(a)).selected_index == a.selected_index,
{
    law_wrapping_moves_undo(a.selected_index, a.entries.len());
}

/// Among `n` palette candidates, Tab then Shift+Tab (or the reverse) comes
/// back to the selected candidate, cycling at both ends.
pub proof fn law_candidate_cycle_undo(s: usize, n: nat)
    requires
        s < n,
        n <= usize::MAX,
    ensures
        candidate_before(Some(candidate_after(Some(s), n)), n) == s,
        candidate_after(Some(candidate_before(Some(s), n)), n) == s,
        candidate_after(None, n) == 0,
        candidate_before(None, n) == n - 1,
{
    let m = n as int;
    if s + 1 < m {
        assert((s + 1) % m == s + 1) by (nonlinear_arith)
            requires
                0 <= s + 1 < m,
        ;
    } else {
        assert((s + 1) % m == 0) by (nonlinear_arith)
            requires
                s + 1 == m,
                m > 0,
        ;
    }
    if s == 0 {
        assert(((m - 1) + 1) % m == 0) by (nonlinear_arith)
            requires
                m > 0,
        ;
    } else {
        assert(((s - 1) + 1) % m == s) by (nonlinear_arith)
            requires
                0 < s < m,
        ;
    }
}

/// A command offered for a typed prefix is offered for every shorter
/// prefix of it too: typing only narrows the candidates.
pub proof fn law_typing_narrows_candidates(c: CommandModel, shorter: Seq<char>, longer: Seq<char>)
    requires
        shorter.is_prefix_of(longer),
        offered(c, longer),
    ensures
        offered(c, shorter),
{
    if shorter.len() > 0 {
        assert(longer.len() > 0);
        assert(shorter =~= c.name.take(shorter.len() as int));
    }
}

/// Pressing `m` twice while browsing with no pop-up open gives back the
/// same state, and asks for no outside work.
pub proof fn law_status_toggle_twice(a: AppModel)
    requires
        a.mode == Mode::Browse,
        !a.show_delete_confirm,
        !a.show_shell_popup,
    ensures
        key_step(key_step(a, Key::Char('m'), false).0, Key::Char('m'), false).0 == a,
        key_step(a, Key::Char('m'), false).1 == KeyEffectModel::Stay,
{
    let b = key_step(a, Key::Char('m'), false).0;
    assert(b == AppModel { status_bar_expanded: !a.status_bar_expanded, ..a });
}

/// While the delete confirmation is open, a key other than `y`, `Y`, `n`,
/// `N`, Esc or Enter changes nothing and asks for nothing.
pub proof fn law_confirmation_ignores_other_keys(a: AppModel, key: Key, ctrl: bool)
    requires
        a.show_delete_confirm,
        key != Key::Esc,
        key != Key::Enter,
        key != Key::Char('y'),
        key != Key::Char('Y'),
        key != Key::Char('n'),
        key != Key::Char('N'),
    ensures
        key_step(a, key, ctrl) == (a, KeyEffectModel::Stay),
{
}

/// In filter mode, Enter goes back to browsing with the filter kept, and
/// Esc goes back with the filter cleared and the whole listing shown.
pub proof fn law_filter_enter_keeps_esc_clears(a: AppModel)
    requires
        a.mode == Mode::Filter,
        !a.show_delete_confirm,
        !a.show_shell_popup,
    ensures
        key_step(a, Key::Enter, false).0.filter_input == a.filter_input,
        key_step(a, Key::Enter, false).0.mode == Mode::Browse,
        key_step(a, Key::Esc, false).0.filter_input.len() == 0,
        key_step(a, Key::Esc, false).0.mode == Mode::Browse,
        key_step(a, Key::Esc, false).0.entries == a.all_entries,
{
    assert(crate::text::trim(Seq::<char>::empty()) =~= Seq::<char>::empty()) by {
        reveal_with_fuel(crate::text::trim_start, 1);
        reveal_with_fuel(crate::text::trim_end, 1);
    }
    law_blank_filter_shows_all(a.all_entries, Seq::empty());
}

/// Base64 turns every three bytes, and a last shorter group, into four
/// characters.
pub proof fn law_base64_length(data: Seq<u8>)
    ensures
        base64(data).len() == 4 * ((data.len() + 2) / 3),
    decreases data.len(),
{
    if data.len() > 3 {
        law_base64_length(data.skip(3));
    }
}

/// Whether `c` is one of the sixty-four Base64 digits: `A`-`Z`, `a`-`z`,
/// `0`-`9`, `+` and `/`.
pub open spec fn is_base64_digit(c: char) -> bool {
    ||| 65 <= (c as u32) && (c as u32) <= 90
    ||| 97 <= (c as u32) && (c as u32) <= 122
    ||| 48 <= (c as u32) && (c as u32) <= 57
    ||| c == '+'
    ||| c == '/'
}

/// How many `=` end the Base64 encoding of `n` bytes.
pub open spec fn base64_padding(n: nat) -> int {
    (3 - n % 3) % 3
}

proof fn lemma_digit_in_alphabet(v: int)
    requires
        0 <= v < 64,
    ensures
        is_base64_digit(digit(v)),
        digit(v) != '=',
{
}

proof fn lemma_group_alphabet(g: Seq<u8>)
    requires
        1 <= g.len() <= 3,
    ensures
        encode_group(g).len() == 4,
        forall|i: int| 0 <= i < 4 - base64_padding(g.len()) ==> is_base64_digit(#[trigger] encode_group(g)[i]),
        forall|i: int| 4 - base64_padding(g.len()) <= i < 4 ==> #[trigger] encode_group(g)[i] == '=',
{
    let b0 = g[0] as int;
    let b1 = if g.len() > 1 { g[1] as int } else { 0 };
    let b2 = if g.len() > 2 { g[2] as int } else { 0 };
    lemma_digit_in_alphabet(b0 / 4);
    lemma_digit_in_alphabet((b0 % 4) * 16 + b1 / 16);
    lemma_digit_in_alphabet((b1 % 16) * 4 + b2 / 64);
    lemma_digit_in_alphabet(b2 % 64);
}

/// Base64 writes only its sixty-four digits and `=`, and `=` stands exactly
/// in the last places, as many as the bytes fall short of a multiple of
/// three.
pub proof fn law_base64_alphabet(data: Seq<u8>)
    ensures
        forall|i: int|
            0 <= i < base64(data).len() - base64_padding(data.len()) ==> is_base64_digit(
                #[trigger] base64(data)[i],
            ),
        forall|i: int|
            base64(data).len() - base64_padding(data.len()) <= i < base64(data).len()
                ==> #[trigger] base64(data)[i] == '=',
    decreases data.len(),
{
    if data.len() == 0 {
    } else if data.len() <= 3 {
        lemma_group_alphabet(data);
    } else {
        let head = data.take(3);
        let rest = data.skip(3);
        lemma_group_alphabet(head);
        law_base64_alphabet(rest);
        law_base64_length(rest);
        assert(base64_padding(data.len()) == base64_padding(rest.len()));
        let e = base64(data);
        assert(e == encode_group(head) + base64(rest));
        assert forall|i: int| 0 <= i < e.len() - base64_padding(data.len()) implies is_base64_digit(
            #[trigger] e[i],
        ) by {
            if i >= 4 {
                assert(e[i] == base64(rest)[i - 4]);
            }
        }
        assert forall|i: int| e.len() - base64_padding(data.len()) <= i < e.len() implies #[trigger] e[i]
            == '=' by {
            assert(e[i] == base64(rest)[i - 4]);
        }
    }
}

/// The six-bit value of a Base64 digit.
pub open spec fn digit_value(c: char) -> int {
    let v = c as u32 as int;
    if 65 <= v && v <= 90 {
        v - 65
    } else if 97 <= v && v <= 122 {
        v - 71
    } else if 48 <= v && v <= 57 {
        v + 4
    } else if c == '+' {
        62
    } else {
        63
    }
}

/// The bytes that four Base64 characters carry: three, less one for each
/// `=` at the end.
pub open spec fn decode_group(q: Seq<char>) -> Seq<u8> {
    let d0 = digit_value(q[0]);
    let d1 = digit_value(q[1]);
    let d2 = if q[2] == '=' { 0 } else { digit_value(q[2]) };
    let d3 = if q[3] == '=' { 0 } else { digit_value(q[3]) };
    let b0 = (d0 * 4 + d1 / 16) as u8;
    let b1 = ((d1 % 16) * 16 + d2 / 4) as u8;
    let b2 = ((d2 % 4) * 64 + d3) as u8;
    if q[2] == '=' {
        seq![b0]
    } else if q[3] == '=' {
        seq![b0, b1]
    } else {
        seq![b0, b1, b2]
    }
}

/// Base64 text read back into bytes, four characters at a time.
pub open spec fn base64_decoded(s: Seq<char>) -> Seq<u8>
    decreases s.len(),
{
    if s.len() < 4 {
        Seq::empty()
    } else {
        decode_group(s.take(4)) + base64_decoded(s.skip(4))
    }
}

proof fn lemma_digit_value(v: int)
    requires
        0 <= v < 64,
    ensures
        digit_value(digit(v)) == v,
{
}

proof fn lemma_group_round_trip(g: Seq<u8>)
    requires
        1 <= g.len() <= 3,
    ensures
        decode_group(encode_group(g)) == g,
{
    let b0 = g[0] as int;
    let b1 = if g.len() > 1 { g[1] as int } else { 0 };
    let b2 = if g.len() > 2 { g[2] as int } else { 0 };
    let e = encode_group(g);
    lemma_digit_in_alphabet(b0 / 4);
    lemma_digit_in_alphabet((b0 % 4) * 16 + b1 / 16);
    lemma_digit_in_alphabet((b1 % 16) * 4 + b2 / 64);
    lemma_digit_in_alphabet(b2 % 64);
    lemma_digit_value(b0 / 4);
    lemma_digit_value((b0 % 4) * 16 + b1 / 16);
    lemma_digit_value((b1 % 16) * 4 + b2 / 64);
    lemma_digit_value(b2 % 64);
    let d0 = b0 / 4;
    let d1 = (b0 % 4) * 16 + b1 / 16;
    let d2 = if g.len() > 1 { (b1 % 16) * 4 + b2 / 64 } else { 0 };
    let d3 = if g.len() > 2 { b2 % 64 } else { 0 };
    assert(d0 * 4 + d1 / 16 == b0);
    assert(g.len() > 1 ==> (d1 % 16) * 16 + d2 / 4 == b1);
    assert(g.len() > 2 ==> (d2 % 4) * 64 + d3 == b2);
    assert(decode_group(e) =~= g);
}

/// Reading Base64 back gives the bytes that were encoded.
pub proof fn law_base64_round_trip(data: Seq<u8>)
    ensures
        base64_decoded(base64(data)) == data,
    decreases data.len(),
{
    if data.len() == 0 {
    } else if data.len() <= 3 {
        lemma_group_round_trip(data);
        let e = base64(data);
        assert(e.take(4) =~= e);
        assert(e.skip(4) =~= Seq::<char>::empty());
        assert(base64_decoded(e.skip(4)) == Seq::<u8>::empty());
        assert(base64_decoded(e) == decode_group(e.take(4)) + base64_decoded(e.skip(4)));
        assert(data =~= decode_group(e) + Seq::<u8>::empty());
    } else {
        let head = data.take(3);
        let rest = data.skip(3);
        lemma_group_round_trip(head);
        law_base64_round_trip(rest);
        let e = base64(data);
        assert(e == encode_group(head) + base64(rest));
        assert(e.take(4) =~= encode_group(head));
        assert(e.skip(4) =~= base64(rest));
        assert(base64_decoded(e) == decode_group(e.take(4)) + base64_decoded(e.skip(4)));
        assert(data =~= head + rest);
    }
}

/// A line cut to a width never exceeds it, keeps a line that fits, and
/// keeps the start of a line that does not, marked by an ellipsis.
pub proof fn law_truncation_fits(s: Seq<char>, w: nat)
    ensures
        truncated(s, w).len() <= w,
        s.len() <= w ==> truncated(s, w) == s,
        s.len() > w && w > 0 ==> truncated(s, w).last() == ellipsis(),
        s.len() > w && w > 0 ==> truncated(s, w).drop_last() == s.take(w - 1),
{
    if s.len() > w && w > 1 {
        assert(truncated(s, w).drop_last() =~= s.take(w - 1));
    }
    if s.len() > w && w == 1 {
        assert(truncated(s, w).drop_last() =~= s.take(0));
    }
}

/// Whether the selection points into the visible listing (or is 0 when
/// nothing is visible).
pub open spec fn selection_valid(a: AppModel) -> bool {
    if a.entries.len() == 0 {
        a.selected_index == 0
    } else {
        a.selected_index < a.entries.len()
    }
}

/// A key press keeps the selection inside the visible listing.
pub proof fn law_key_press_keeps_selection_valid(a: AppModel, key: Key, ctrl: bool)
    requires
        selection_valid(a),
        a.entries.len() <= usize::MAX,
    ensures
        selection_valid(key_step(a, key, ctrl).0),
{
}

/// A key press by itself never changes the current directory or the
/// listing read from it: that takes the outside work it hands back.
pub proof fn law_key_press_keeps_directory(a: AppModel, key: Key, ctrl: bool)
    ensures
        key_step(a, key, ctrl).0.current_dir == a.current_dir,
        key_step(a, key, ctrl).0.all_entries == a.all_entries,
{
}

/// Taking in a new listing (a reload, a move into a directory, a refresh
/// that keeps the selected name, or a change that selects a named entry)
/// always leaves the selection inside the visible listing.
pub proof fn law_listing_changes_keep_selection_valid(
    a: AppModel,
    dir: Seq<char>,
    l: Result<Seq<EntryModel>, Seq<char>>,
    name: Seq<char>,
)
    requires
        selection_valid(a),
    ensures
        selection_valid(reloaded(a, l)),
        selection_valid(changed_directory(a, dir, l)),
        selection_valid(refreshed(a, l)),
        selection_valid(reselected(reloaded(a, l), name)),
{
    let b = reloaded(a, l);
    match index_named(b.entries, name) {
        Some(_) => lemma_index_named_in_range(b.entries, name),
        None => {},
    }
    match selected_of(a) {
        Some(e) => match index_named(b.entries, e.name) {
            Some(_) => lemma_index_named_in_range(b.entries, e.name),
            None => {},
        },
        None => {},
    }
}

proof fn lemma_index_named_in_range(es: Seq<EntryModel>, name: Seq<char>)
    ensures
        index_named(es, name) matches Some(i) ==> 0 <= i < es.len(),
    decreases es.len(),
{
    if es.len() > 0 {
        lemma_index_named_in_range(es.drop_last(), name);
    }
}

/// A copy never writes over something that is already there: whenever a
/// planned copy goes to a destination as it is (not to a fresh numbered
/// name), nothing was found at that destination.
pub proof fn law_cp_never_overwrites(plan: CpPlanModel, taken: bool, src_exists: bool)
    ensures
        cp_target(plan, taken, src_exists) matches Ok((_, CopyDestModel::Use(_))) ==> !taken,
{
}

/// Copying a named source into the current directory: when the name there
/// is taken by something other than the source itself, the copy goes to a
/// fresh numbered name made from that name; when it is free, the copy takes
/// it; when it is the source itself, to a fresh name made from the source.
/// A missing source stops the copy with the error naming it.
pub proof fn law_cp_named_destination(src: Seq<char>, candidate: Seq<char>, taken: bool, src_exists: bool)
    ensures
        src_exists && taken && !same_path(candidate, src) ==> cp_target(CpPlanModel::Named(src, candidate), taken, src_exists)
            == Ok::<(Seq<char>, CopyDestModel), Seq<char>>((src, CopyDestModel::Fresh(candidate))),
        src_exists && !taken && !same_path(candidate, src) ==> cp_target(CpPlanModel::Named(src, candidate), taken, src_exists)
            == Ok::<(Seq<char>, CopyDestModel), Seq<char>>((src, CopyDestModel::Use(candidate))),
        src_exists && same_path(candidate, src) ==> cp_target(CpPlanModel::Named(src, candidate), taken, src_exists)
            == Ok::<(Seq<char>, CopyDestModel), Seq<char>>((src, CopyDestModel::Fresh(src))),
        !src_exists ==> cp_target(CpPlanModel::Named(src, candidate), taken, src_exists)
            == Err::<(Seq<char>, CopyDestModel), Seq<char>>("cp: '"@ + src + "': No such file or directory"@),
{
}

/// Copying to an explicit destination refuses one that is taken, and the
/// selected entry always goes to a fresh numbered name made from itself.
pub proof fn law_cp_explicit_and_selected(src: Seq<char>, dest: Seq<char>, taken: bool)
    ensures
        taken ==> cp_target(CpPlanModel::Explicit(src, dest), taken, true)
            == Err::<(Seq<char>, CopyDestModel), Seq<char>>("cp: '"@ + dest + "' already exists"@),
        !taken ==> cp_target(CpPlanModel::Explicit(src, dest), taken, true)
            == Ok::<(Seq<char>, CopyDestModel), Seq<char>>((src, CopyDestModel::Use(dest))),
        cp_target(CpPlanModel::Selected(src), taken, true)
            == Ok::<(Seq<char>, CopyDestModel), Seq<char>>((src, CopyDestModel::Fresh(src))),
{
}

/// `yank` with one argument copies that argument as a path resolved
/// against the current directory (see [`resolved_path`]), and reports a
/// path it cannot resolve.
pub proof fn law_yank_resolves_its_argument(a: AppModel, x: Seq<char>, home: Option<Seq<char>>)
    ensures
        resolved_path(a.current_dir, x, home) matches Ok(p) ==> yank_plan(a, seq![x], home)
            == Ok::<Seq<char>, Seq<char>>(p),
        resolved_path(a.current_dir, x, home) matches Err(e) ==> yank_plan(a, seq![x], home)
            == Err::<Seq<char>, Seq<char>>("yank: "@ + e),
{
}

/// `yank` with a plain relative name copies that name joined to the
/// current directory, and with an absolute path copies the path itself.
pub proof fn law_yank_relative_and_absolute(a: AppModel, x: Seq<char>, home: Option<Seq<char>>)
    requires
        x.len() > 0,
        !is_ws(x[0]),
        !is_ws(x.last()),
        x[0] != '~',
    ensures
        x[0] != '/' ==> yank_plan(a, seq![x], home) == Ok::<Seq<char>, Seq<char>>(path_join(a.current_dir, x)),
        x[0] == '/' ==> yank_plan(a, seq![x], home) == Ok::<Seq<char>, Seq<char>>(x),
{
    assert(trim(x) == x);
}

/// `yank` without arguments copies the path of the selected entry, and
/// reports that there is none when the selection is outside the listing.
pub proof fn law_yank_selection(a: AppModel, home: Option<Seq<char>>)
    ensures
        a.selected_index < a.entries.len() ==> yank_plan(a, Seq::empty(), home)
            == Ok::<Seq<char>, Seq<char>>(a.entries[a.selected_index as int].path),
        a.selected_index >= a.entries.len() ==> yank_plan(a, Seq::empty(), home)
            == Err::<Seq<char>, Seq<char>>("yank: no selection"@),
{
}

/// `yank` takes at most one path.
pub proof fn law_yank_at_most_one_path(a: AppModel, args: Seq<Seq<char>>, home: Option<Seq<char>>)
    requires
        args.len() > 1,
    ensures
        yank_plan(a, args, home) == Err::<Seq<char>, Seq<char>>("yank: too many arguments"@),
{
}

/// After a shell run, the pop-up holds the program's own standard output
/// and standard error, its exit code and the shell that ran it; a run that
/// could not start shows its error as standard error and no output.
pub proof fn law_shell_output_kept(
    a: AppModel,
    shell: Seq<char>,
    code: Option<i32>,
    out: Seq<char>,
    err: Seq<char>,
    e: Seq<char>,
)
    ensures
        shell_reported(a, shell, Ok((code, out, err))).shell_last_output
            == Some(ShellModel { exit_code: code, stdout: out, stderr: err, ran_shell: shell }),
        shell_reported(a, shell, Ok((code, out, err))).show_shell_popup,
        shell_reported(a, shell, Err(e)).shell_last_output
            == Some(ShellModel { exit_code: None, stdout: Seq::empty(), stderr: e, ran_shell: shell }),
        shell_reported(a, shell, Err(e)).show_shell_popup,
        code matches Some(c) ==> shell_reported(a, shell, Ok((code, out, err))).status_message
            == "shell exited with code "@ + signed_decimal(c as int),
        code is None ==> shell_reported(a, shell, Ok((code, out, err))).status_message
            == "shell terminated by signal"@,
        shell_reported(a, shell, Err(e)).status_message == "shell execution failed: "@ + e,
        shell_reported(a, shell, Ok((code, out, err))).entries == a.entries,
        shell_reported(a, shell, Ok((code, out, err))).mode == a.mode,
{
}

/// Up and Down move the selection while browsing and while filtering, with
/// no pop-up open: Up to the entry above (from the top to the bottom), Down
/// to the entry below (from the bottom to the top); the listing stays, and
/// nothing else is done. Browsing, `k` and `j` do the same.
pub proof fn law_up_down_move_the_selection(a: AppModel, ctrl: bool)
    requires
        a.mode == Mode::Browse || a.mode == Mode::Filter,
        !a.show_delete_confirm,
        !a.show_shell_popup,
        a.selected_index < a.entries.len(),
        a.entries.len() <= usize::MAX,
    ensures
        key_step(a, Key::Up, ctrl).0.selected_index == if a.selected_index == 0 {
            a.entries.len() - 1
        } else {
            a.selected_index - 1
        },
        key_step(a, Key::Down, ctrl).0.selected_index == if a.selected_index + 1 < a.entries.len() {
            a.selected_index + 1
        } else {
            0
        },
        key_step(a, Key::Up, ctrl).0.entries == a.entries,
        key_step(a, Key::Down, ctrl).0.entries == a.entries,
        key_step(a, Key::Up, ctrl).1 == KeyEffectModel::Stay,
        key_step(a, Key::Down, ctrl).1 == KeyEffectModel::Stay,
        a.mode == Mode::Browse ==> key_step(a, Key::Char('k'), ctrl) == key_step(a, Key::Up, ctrl),
        a.mode == Mode::Browse ==> key_step(a, Key::Char('j'), ctrl) == key_step(a, Key::Down, ctrl),
{
}

/// Picking a help line runs its command as the palette would run it with
/// no arguments: `quit` quits; `help`, `create`, `command`, `shell` and
/// `filter` open their modes; `status` toggles the status bar; `up` and
/// `down` move the selection; `delete`, `editor` and `parent` are handed on
/// to run; `yank` and `cp` only close the help. A line whose command needs
/// arguments opens the palette with its name typed.
pub proof fn law_help_pick_runs_the_line(a: AppModel, items: Seq<HelpModel>, i: usize)
    requires
        a.help_selected == Some(i),
        i < items.len(),
        a.entries.len() <= usize::MAX,
    ensures
        ({
            let (b, act) = help_pick(a, items);
            let it = items[i as int];
            let id = it.command_id;
            &&& it.requires_args ==> b.mode == Mode::Command && b.command_input == it.command_name + " "@
                && act == ActionModel::Continue
            &&& !it.requires_args && id == CommandId::Quit ==> act == ActionModel::Quit
            &&& !it.requires_args && id == CommandId::Help ==> b.mode == Mode::Help && act == ActionModel::Continue
            &&& !it.requires_args && id == CommandId::Create ==> b.mode == Mode::Create && act == ActionModel::Continue
            &&& !it.requires_args && id == CommandId::Command ==> b.mode == Mode::Command && act
                == ActionModel::Continue
            &&& !it.requires_args && id == CommandId::Shell ==> b.mode == Mode::Shell && act == ActionModel::Continue
            &&& !it.requires_args && id == CommandId::Filter ==> b.mode == Mode::Filter && act == ActionModel::Continue
            &&& !it.requires_args && id == CommandId::Status ==> b.mode == Mode::Browse && b.status_bar_expanded
                == !a.status_bar_expanded && act == ActionModel::Continue
            &&& !it.requires_args && (id == CommandId::Delete || id == CommandId::Editor || id == CommandId::Parent)
                ==> b.mode == Mode::Browse && act == ActionModel::Run(id, Seq::empty())
            &&& !it.requires_args && (id == CommandId::Yank || id == CommandId::Cp) ==> b == AppModel {
                mode: Mode::Browse,
                ..a
            } && act == ActionModel::Continue
            &&& !it.requires_args && id == CommandId::SelectUp && a.selected_index < a.entries.len() ==> b.mode
                == Mode::Browse && b.selected_index == (if a.selected_index == 0 {
                a.entries.len() - 1
            } else {
                a.selected_index - 1
            }) && act == ActionModel::Continue
            &&& !it.requires_args && id == CommandId::SelectDown && a.selected_index < a.entries.len() ==> b.mode
                == Mode::Browse && b.selected_index == (if a.selected_index + 1 < a.entries.len() {
                a.selected_index + 1
            } else {
                0
            }) && act == ActionModel::Continue
        }),
{
}

/// Picking on the help screen with no line selected, or past the last
/// line, only closes the help.
pub proof fn law_help_pick_nothing(a: AppModel, items: Seq<HelpModel>)
    requires
        a.help_selected matches Some(i) ==> i >= items.len(),
    ensures
        help_pick(a, items) == (AppModel { mode: Mode::Browse, ..a }, ActionModel::Continue),
{
}

/// Enter on the help screen, with the `quit` line selected, quits the
/// viewer.
pub proof fn law_help_enter_on_quit_quits(a: AppModel, ctrl: bool)
    requires
        a.mode == Mode::Help,
        !a.show_delete_confirm,
        !a.show_shell_popup,
        a.help_selected matches Some(i) && i < help_listing().len() && !help_listing()[i as int].requires_args
            && help_listing()[i as int].command_id == CommandId::Quit,
    ensures
        key_step(a, Key::Enter, ctrl).1 == KeyEffectModel::Quit,
{
}

} // verus!
