//! The cell value of a select field: a comma-joined list of option ids.

use vstd::prelude::*;

verus! {

/// The part of `s` before its first `,`; all of `s` if it holds none.
pub open spec fn first_id(s: Seq<char>) -> Seq<char>
    decreases s.len(),
{
    if s.len() == 0 {
        s
    } else if s[0] == ',' {
        Seq::<char>::empty()
    } else {
        seq![s[0]] + first_id(s.drop_first())
    }
}

/// The value stored for a cell written as `raw`: a single-select field
/// keeps only the first id, a multi-select field keeps the list as it is.
pub open spec fn stored_cell_value(raw: Seq<char>, is_single_select: bool) -> Seq<char> {
    if is_single_select {
        first_id(raw)
    } else {
        raw
    }
}

/// The first id of `s` is the part before position `k` when `k` is where
/// the first `,` of `s` stands, or the length of `s` when it holds none.
pub proof fn lemma_first_id_ends_at_first_comma(s: Seq<char>, k: int)
    requires
        0 <= k <= s.len(),
        forall|j: int| 0 <= j < k ==> s[j] != ',',
        k == s.len() || s[k] == ',',
    ensures
        first_id(s) == s.subrange(0, k),
    decreases s.len(),
{
    if s.len() == 0 || k == 0 {
        assert(s.subrange(0, k) =~= Seq::<char>::empty());
    } else {
        let t = s.drop_first();
        assert forall|j: int| 0 <= j < k - 1 implies t[j] != ',' by {
            assert(s[j + 1] != ',');
        }
        lemma_first_id_ends_at_first_comma(t, k - 1);
        assert(s.subrange(0, k) =~= seq![s[0]] + t.subrange(0, k - 1));
    }
}

/// The value to store for a cell written as `data`: unchanged for a
/// multi-select field, cut at its first `,` for a single-select field.
pub fn select_option_id_from_data(data: String, is_single_select: bool) -> (r: String)
    ensures
        r@ == stored_cell_value(data@, is_single_select),
{
    if !is_single_select {
        return data;
    }
    let s = data.as_str();
    let n = s.unicode_len();
    let mut i: usize = 0;
    while i < n && s.get_char(i) != ','
        invariant
            n == s@.len(),
            i <= n,
            forall|j: int| 0 <= j < i ==> s@[j] != ',',
        decreases n - i,
    {
        i = i + 1;
    }
    proof {
        lemma_first_id_ends_at_first_comma(s@, i as int);
    }
    s.substring_char(0, i).to_owned()
}

/// Writing a multi-select cell stores the raw value unchanged.
pub proof fn lemma_multi_select_keeps_raw_value(s: Seq<char>)
    ensures
        stored_cell_value(s, false) == s,
{
}

/// Writing a single-select cell stores the part of the raw value before its
/// first `,`, or the whole raw value when it holds no `,`.
pub proof fn lemma_single_select_keeps_part_before_first_comma(s: Seq<char>)
    ensures
        forall|k: int|
            0 <= k < s.len() && s[k] == ',' && (forall|j: int| 0 <= j < k ==> s[j] != ',')
                ==> stored_cell_value(s, true) == s.subrange(0, k),
        !s.contains(',') ==> stored_cell_value(s, true) == s,
{
    assert forall|k: int|
        0 <= k < s.len() && s[k] == ',' && (forall|j: int| 0 <= j < k ==> s[j] != ',')
            implies stored_cell_value(s, true) == s.subrange(0, k) by {
        lemma_first_id_ends_at_first_comma(s, k);
    }
    if !s.contains(',') {
        lemma_first_id_ends_at_first_comma(s, s.len() as int);
        assert(s.subrange(0, s.len() as int) =~= s);
    }
}

} // verus!
