//! The catalog held by the data service: read-only ship models and
//! manufacturers, exact lookup by identifier, and case-insensitive search by
//! name ranked by relevance and then by name.

use vstd::prelude::*;

verus! {

/// Most suggestions an autocomplete reply may carry.
pub const MAX_SUGGESTIONS: usize = 25;

/// A ship maker.
#[derive(Debug)]
pub struct Manufacturer {
    pub id: String,
    pub name: String,
    pub code: String,
}

impl Clone for Manufacturer {
    fn clone(&self) -> (r: Self)
        ensures
            r == *self,
    {
        Manufacturer { id: self.id.clone(), name: self.name.clone(), code: self.code.clone() }
    }
}

/// A catalog entry: a model of ship, referring to its manufacturer by identifier.
#[derive(Debug)]
pub struct ShipModel {
    pub id: String,
    pub name: String,
    pub manufacturer_id: String,
}

impl Clone for ShipModel {
    fn clone(&self) -> (r: Self)
        ensures
            r == *self,
    {
        ShipModel {
            id: self.id.clone(),
            name: self.name.clone(),
            manufacturer_id: self.manufacturer_id.clone(),
        }
    }
}

/// One autocomplete suggestion: the text shown, and the catalog identifier sent back.
#[derive(Debug)]
pub struct Choice {
    pub name: String,
    pub value: String,
}

/// The lower-case form of a text, as `str::to_lowercase` gives it.
pub uninterp spec fn lower_of(s: Seq<char>) -> Seq<char>;

/// Relies on `str::to_lowercase`: the result depends on the characters alone,
/// and the empty text stays empty.
#[verifier::external_body]
fn to_lower(s: &String) -> (r: String)
    ensures
        r@ == lower_of(s@),
        s@.len() == 0 ==> r@.len() == 0,
{
    s.to_lowercase()
}

/// `needle` occurs in `hay` as a contiguous run.
pub open spec fn is_substring(needle: Seq<char>, hay: Seq<char>) -> bool {
    exists|i: int|
        0 <= i && i + needle.len() <= hay.len() && #[trigger] hay.subrange(i, i + needle.len()) == needle
}

/// Relies on `str::contains` with a `&str` pattern: true exactly when the
/// pattern occurs in the text as a contiguous run of characters.
#[verifier::external_body]
fn text_contains(hay: &String, needle: &String) -> (r: bool)
    ensures
        r == is_substring(needle@, hay@),
{
    hay.as_str().contains(needle.as_str())
}
/// The first ship of `ships` with identifier `id`.
pub open spec fn first_with_id(ships: Seq<ShipModel>, id: Seq<char>) -> Option<ShipModel>
    decreases ships.len(),
{
    if ships.len() == 0 {
        None
    } else if ships[0].id@ == id {
        Some(ships[0])
    } else {
        first_with_id(ships.drop_first(), id)
    }
}

/// The texts that a vector of strings holds, position for position.
pub open spec fn texts(v: Seq<String>) -> Seq<Seq<char>> {
    Seq::new(v.len(), |i: int| v[i]@)
}

/// The names of `ships`, position for position.
pub open spec fn names_of(ships: Seq<ShipModel>) -> Seq<Seq<char>> {
    Seq::new(ships.len(), |i: int| ships[i].name@)
}

/// The lower-cased names of `ships`, position for position.
pub open spec fn lowered_names(ships: Seq<ShipModel>) -> Seq<Seq<char>> {
    Seq::new(ships.len(), |i: int| lower_of(ships[i].name@))
}

/// `text` begins with `prefix`.
pub open spec fn starts_with(text: Seq<char>, prefix: Seq<char>) -> bool {
    prefix.len() <= text.len() && text.subrange(0, prefix.len() as int) == prefix
}

/// How well a lower-cased name answers a lower-cased query: 0 (best) when the
/// name begins with the query, 1 when the query occurs only further in.
pub open spec fn relevance(low_name: Seq<char>, q: Seq<char>) -> nat {
    if starts_with(low_name, q) {
        0
    } else {
        1
    }
}

/// Lexicographic order by character code from position `i` on: `a` does not
/// come after `b`.
pub open spec fn name_le_from(a: Seq<char>, b: Seq<char>, i: int) -> bool
    decreases a.len() - i,
{
    if i >= a.len() {
        true
    } else if i >= b.len() {
        false
    } else if (a[i] as u32) != (b[i] as u32) {
        (a[i] as u32) < (b[i] as u32)
    } else {
        name_le_from(a, b, i + 1)
    }
}

/// Name `a` does not come after name `b` (lexicographic by character code; a
/// prefix comes first).
pub open spec fn name_le(a: Seq<char>, b: Seq<char>) -> bool {
    name_le_from(a, b, 0)
}

/// The ship at position `i` ranks no later than the one at `j`: better
/// relevance, or the same relevance and a name that does not come after.
pub open spec fn ranks_le(ships: Seq<ShipModel>, lows: Seq<Seq<char>>, q: Seq<char>, i: usize, j: usize) -> bool {
    let ri = relevance(lows[i as int], q);
    let rj = relevance(lows[j as int], q);
    ri < rj || (ri == rj && name_le(ships[i as int].name@, ships[j as int].name@))
}

/// Where position `x` goes in the ranked sequence `v`, scanning from `p`:
/// before the first entry that ranks strictly after it, so ties keep catalog order.
pub open spec fn insert_pos_from(
    ships: Seq<ShipModel>,
    lows: Seq<Seq<char>>,
    q: Seq<char>,
    v: Seq<usize>,
    x: usize,
    p: int,
) -> int
    decreases v.len() - p,
{
    if p >= v.len() {
        v.len() as int
    } else if ranks_le(ships, lows, q, v[p], x) {
        insert_pos_from(ships, lows, q, v, x, p + 1)
    } else {
        p
    }
}

/// The positions, among the first `n` ships, whose lower-cased name `lows[i]`
/// holds the lower-cased query `q`, ordered by relevance and then by name;
/// ships that tie keep catalog order.
pub open spec fn ranked(ships: Seq<ShipModel>, lows: Seq<Seq<char>>, q: Seq<char>, n: nat) -> Seq<usize>
    decreases n,
{
    if n == 0 {
        Seq::empty()
    } else {
        let r = ranked(ships, lows, q, (n - 1) as nat);
        let x = (n - 1) as usize;
        if is_substring(q, lows[x as int]) {
            r.insert(insert_pos_from(ships, lows, q, r, x, 0), x)
        } else {
            r
        }
    }
}

/// At most the first 25 of `v`.
pub open spec fn capped(v: Seq<usize>) -> Seq<usize> {
    if v.len() <= MAX_SUGGESTIONS {
        v
    } else {
        v.take(MAX_SUGGESTIONS as int)
    }
}

/// The positions of the ships suggested for the partial input `query`: the
/// best 25 matches of its lower-cased form, by relevance and then name.
pub open spec fn suggestion_order(ships: Seq<ShipModel>, query: Seq<char>) -> Seq<usize> {
    capped(ranked(ships, lowered_names(ships), lower_of(query), ships.len()))
}

/// `choices` names and identifies the ships at positions `order`, in that order.
pub open spec fn choices_for(choices: Seq<Choice>, ships: Seq<ShipModel>, order: Seq<usize>) -> bool {
    &&& choices.len() == order.len()
    &&& forall|k: int|
        0 <= k < choices.len() ==> (#[trigger] choices[k]).name@ == ships[order[k] as int].name@
            && choices[k].value@ == ships[order[k] as int].id@
}

/// `models` are the ships at positions `order`, in that order.
pub open spec fn models_at(models: Seq<ShipModel>, ships: Seq<ShipModel>, order: Seq<usize>) -> bool {
    &&& models.len() == order.len()
    &&& forall|k: int| 0 <= k < models.len() ==> #[trigger] models[k] == ships[order[k] as int]
}

/// The scan for an insertion point stops at or after `p`, passes only entries
/// that rank no later than `x`, and stops at one that ranks after it.
pub proof fn lemma_insert_pos(
    ships: Seq<ShipModel>,
    lows: Seq<Seq<char>>,
    q: Seq<char>,
    v: Seq<usize>,
    x: usize,
    p: int,
)
    requires
        0 <= p <= v.len(),
    ensures
        p <= insert_pos_from(ships, lows, q, v, x, p) <= v.len(),
        forall|t: int|
            p <= t < insert_pos_from(ships, lows, q, v, x, p) ==> ranks_le(ships, lows, q, #[trigger] v[t], x),
        insert_pos_from(ships, lows, q, v, x, p) < v.len() ==> !ranks_le(
            ships,
            lows,
            q,
            v[insert_pos_from(ships, lows, q, v, x, p)],
            x,
        ),
    decreases v.len() - p,
{
    if p < v.len() && ranks_le(ships, lows, q, v[p], x) {
        lemma_insert_pos(ships, lows, q, v, x, p + 1);
    }
}

/// Every ranked position is below `n` and names a ship whose lower-cased name
/// holds the query.
pub proof fn lemma_ranked_members(ships: Seq<ShipModel>, lows: Seq<Seq<char>>, q: Seq<char>, n: nat)
    ensures
        ranked(ships, lows, q, n).len() <= n,
        forall|k: int|
            0 <= k < ranked(ships, lows, q, n).len() ==> (#[trigger] ranked(ships, lows, q, n)[k]) < n
                && is_substring(q, lows[ranked(ships, lows, q, n)[k] as int]),
    decreases n,
{
    if n > 0 {
        let r = ranked(ships, lows, q, (n - 1) as nat);
        lemma_ranked_members(ships, lows, q, (n - 1) as nat);
        lemma_insert_pos(ships, lows, q, r, (n - 1) as usize, 0);
    }
}

/// With an empty query every ship is ranked.
pub proof fn lemma_ranked_empty_query(ships: Seq<ShipModel>, lows: Seq<Seq<char>>, q: Seq<char>, n: nat)
    requires
        q.len() == 0,
        n <= lows.len(),
        n <= usize::MAX,
    ensures
        ranked(ships, lows, q, n).len() == n,
    decreases n,
{
    if n > 0 {
        let r = ranked(ships, lows, q, (n - 1) as nat);
        lemma_ranked_empty_query(ships, lows, q, (n - 1) as nat);
        lemma_insert_pos(ships, lows, q, r, (n - 1) as usize, 0);
        let x = (n - 1) as usize;
        assert(lows[x as int].subrange(0, 0 + q.len() as int) =~= q);
        assert(is_substring(q, lows[x as int]));
    }
}

/// Name order is total: of two names, one does not come after the other.
pub proof fn lemma_name_le_total(a: Seq<char>, b: Seq<char>, i: int)
    requires
        0 <= i,
    ensures
        name_le_from(a, b, i) || name_le_from(b, a, i),
    decreases a.len() - i,
{
    if i < a.len() && i < b.len() && (a[i] as u32) == (b[i] as u32) {
        lemma_name_le_total(a, b, i + 1);
    }
}

/// Name order is transitive.
pub proof fn lemma_name_le_trans(a: Seq<char>, b: Seq<char>, c: Seq<char>, i: int)
    requires
        0 <= i,
        name_le_from(a, b, i),
        name_le_from(b, c, i),
    ensures
        name_le_from(a, c, i),
    decreases a.len() - i,
{
    if i < a.len() && i < b.len() && i < c.len() && (a[i] as u32) == (b[i] as u32) && (b[i] as u32) == (c[i] as u32) {
        lemma_name_le_trans(a, b, c, i + 1);
    }
}

/// The ranking is a total preorder on positions.
pub proof fn lemma_ranks_le_order(
    ships: Seq<ShipModel>,
    lows: Seq<Seq<char>>,
    q: Seq<char>,
    i: usize,
    j: usize,
    k: usize,
)
    ensures
        ranks_le(ships, lows, q, i, j) || ranks_le(ships, lows, q, j, i),
        ranks_le(ships, lows, q, i, j) && ranks_le(ships, lows, q, j, k) ==> ranks_le(ships, lows, q, i, k),
{
    lemma_name_le_total(ships[i as int].name@, ships[j as int].name@, 0);
    if ranks_le(ships, lows, q, i, j) && ranks_le(ships, lows, q, j, k) {
        if name_le(ships[i as int].name@, ships[j as int].name@) && name_le(ships[j as int].name@, ships[k as int].name@) {
            lemma_name_le_trans(ships[i as int].name@, ships[j as int].name@, ships[k as int].name@, 0);
        }
    }
}

/// The ranked positions are ordered: each ranks no later than every one after
/// it, that is by relevance first and then by name.
pub proof fn law_ranked_is_ordered(ships: Seq<ShipModel>, lows: Seq<Seq<char>>, q: Seq<char>, n: nat)
    ensures
        forall|a: int, b: int|
            0 <= a < b < ranked(ships, lows, q, n).len() ==> ranks_le(
                ships,
                lows,
                q,
                #[trigger] ranked(ships, lows, q, n)[a],
                #[trigger] ranked(ships, lows, q, n)[b],
            ),
    decreases n,
{
    if n > 0 {
        let r = ranked(ships, lows, q, (n - 1) as nat);
        let x = (n - 1) as usize;
        law_ranked_is_ordered(ships, lows, q, (n - 1) as nat);
        if is_substring(q, lows[x as int]) {
            let p = insert_pos_from(ships, lows, q, r, x, 0);
            lemma_insert_pos(ships, lows, q, r, x, 0);
            let r2 = r.insert(p, x);
            assert(r2 == ranked(ships, lows, q, n));
            if p < r.len() {
                lemma_ranks_le_order(ships, lows, q, r[p], x, x);
            }
            assert forall|a: int, b: int| 0 <= a < b < r2.len() implies ranks_le(
                ships,
                lows,
                q,
                #[trigger] r2[a],
                #[trigger] r2[b],
            ) by {
                if a < p && b == p {
                } else if a == p && b > p {
                    lemma_ranks_le_order(ships, lows, q, x, r[p], r[b - 1]);
                } else if a < p && b > p {
                    assert(ranks_le(ships, lows, q, r[a], r[b - 1]));
                } else if a > p {
                    assert(ranks_le(ships, lows, q, r[a - 1], r[b - 1]));
                } else {
                    assert(ranks_le(ships, lows, q, r[a], r[b]));
                }
            }
        }
    }
}

/// Autocomplete suggestions never number more than 25, each names a ship
/// whose lower-cased name holds the lower-cased partial input, and they come
/// ordered by relevance and then by name.
pub proof fn law_suggestions_bounded_and_matching(ships: Seq<ShipModel>, query: Seq<char>)
    ensures
        suggestion_order(ships, query).len() <= MAX_SUGGESTIONS,
        forall|k: int|
            0 <= k < suggestion_order(ships, query).len() ==> (#[trigger] suggestion_order(ships, query)[k])
                < ships.len() && is_substring(
                lower_of(query),
                lower_of(ships[suggestion_order(ships, query)[k] as int].name@),
            ),
        forall|a: int, b: int|
            0 <= a < b < suggestion_order(ships, query).len() ==> ranks_le(
                ships,
                lowered_names(ships),
                lower_of(query),
                #[trigger] suggestion_order(ships, query)[a],
                #[trigger] suggestion_order(ships, query)[b],
            ),
{
    let lows = lowered_names(ships);
    let all = ranked(ships, lows, lower_of(query), ships.len());
    lemma_ranked_members(ships, lows, lower_of(query), ships.len());
    law_ranked_is_ordered(ships, lows, lower_of(query), ships.len());
    assert forall|a: int, b: int| 0 <= a < b < suggestion_order(ships, query).len() implies ranks_le(
        ships,
        lows,
        lower_of(query),
        #[trigger] suggestion_order(ships, query)[a],
        #[trigger] suggestion_order(ships, query)[b],
    ) by {
        assert(suggestion_order(ships, query)[a] == all[a]);
        assert(suggestion_order(ships, query)[b] == all[b]);
    }
    assert forall|k: int| 0 <= k < suggestion_order(ships, query).len() implies (#[trigger] suggestion_order(
        ships,
        query,
    )[k]) < ships.len() && is_substring(
        lower_of(query),
        lower_of(ships[suggestion_order(ships, query)[k] as int].name@),
    ) by {
        assert(suggestion_order(ships, query)[k] == all[k]);
    }
}

/// Whether `text` begins with `prefix`.
pub fn text_starts_with(text: &String, prefix: &String) -> (r: bool)
    ensures
        r == starts_with(text@, prefix@),
{
    let n = prefix.as_str().unicode_len();
    let m = text.as_str().unicode_len();
    if n > m {
        return false;
    }
    let mut i: usize = 0;
    while i < n
        invariant
            n == prefix@.len(),
            n <= m == text@.len(),
            i <= n,
            forall|j: int| 0 <= j < i ==> text@[j] == prefix@[j],
        decreases n - i,
    {
        if text.as_str().get_char(i) != prefix.as_str().get_char(i) {
            assert(text@.subrange(0, n as int)[i as int] != prefix@[i as int]);
            return false;
        }
        i = i + 1;
    }
    assert(text@.subrange(0, n as int) =~= prefix@);
    true
}

/// Whether name `a` does not come after name `b`.
pub fn name_not_after(a: &String, b: &String) -> (r: bool)
    ensures
        r == name_le(a@, b@),
{
    let la = a.as_str().unicode_len();
    let lb = b.as_str().unicode_len();
    let mut i: usize = 0;
    while i < la
        invariant
            la == a@.len(),
            lb == b@.len(),
            name_le(a@, b@) == name_le_from(a@, b@, i as int),
        decreases la - i,
    {
        if i >= lb {
            return false;
        }
        let ca = a.as_str().get_char(i);
        let cb = b.as_str().get_char(i);
        if (ca as u32) != (cb as u32) {
            return (ca as u32) < (cb as u32);
        }
        i = i + 1;
    }
    true
}

/// The read-only catalog that the data service owns.
pub struct Catalog {
    ships: Vec<ShipModel>,
    manufacturers: Vec<Manufacturer>,
}

impl Catalog {
    /// The ship models, in catalog order.
    pub closed spec fn ship_models(&self) -> Seq<ShipModel> {
        self.ships@
    }

    /// The manufacturers, in catalog order.
    pub closed spec fn makers(&self) -> Seq<Manufacturer> {
        self.manufacturers@
    }

    /// A catalog over the given reference data.
    pub fn new(ships: Vec<ShipModel>, manufacturers: Vec<Manufacturer>) -> (r: Catalog)
        ensures
            r.ship_models() == ships@,
            r.makers() == manufacturers@,
    {
        Catalog { ships, manufacturers }
    }

    /// Exact lookup by identifier; `None` when no model has it.
    pub fn get_ship_by_identifier(&self, id: &String) -> (r: Option<ShipModel>)
        ensures
            r == first_with_id(self.ship_models(), id@),
    {
        let mut i: usize = 0;
        assert(self.ships@.subrange(0, self.ships@.len() as int) =~= self.ships@);
        while i < self.ships.len()
            invariant
                i <= self.ships@.len(),
                first_with_id(self.ships@, id@) == first_with_id(self.ships@.subrange(i as int, self.ships@.len() as int), id@),
            decreases self.ships@.len() - i,
        {
            let ghost rest = self.ships@.subrange(i as int, self.ships@.len() as int);
            assert(rest.drop_first() =~= self.ships@.subrange(i + 1, self.ships@.len() as int));
            if self.ships[i].id == *id {
                return Some(self.ships[i].clone());
            }
            i = i + 1;
        }
        None
    }

    /// Every manufacturer, in catalog order.
    pub fn list_manufacturers(&self) -> (r: Vec<Manufacturer>)
        ensures
            r@ == self.makers(),
    {
        let mut out: Vec<Manufacturer> = Vec::new();
        let mut i: usize = 0;
        while i < self.manufacturers.len()
            invariant
                i <= self.manufacturers@.len(),
                out@ == self.manufacturers@.take(i as int),
            decreases self.manufacturers@.len() - i,
        {
            out.push(self.manufacturers[i].clone());
            assert(self.manufacturers@.take(i + 1) =~= self.manufacturers@.take(i as int).push(
                self.manufacturers@[i as int],
            ));
            i = i + 1;
        }
        assert(self.manufacturers@.take(i as int) =~= self.manufacturers@);
        out
    }

    /// Whether the ship at `i` ranks no later than the one at `j`.
    fn ranks_no_later(&self, lows: &Vec<String>, q: &String, i: usize, j: usize) -> (r: bool)
        requires
            i < self.ships@.len(),
            j < self.ships@.len(),
            lows@.len() == self.ships@.len(),
        ensures
            r == ranks_le(self.ships@, texts(lows@), q@, i, j),
    {
        let ri: u8 = if text_starts_with(&lows[i], q) { 0 } else { 1 };
        let rj: u8 = if text_starts_with(&lows[j], q) { 0 } else { 1 };
        ri < rj || (ri == rj && name_not_after(&self.ships[i].name, &self.ships[j].name))
    }

    /// The positions of the ships whose `lows` text holds `q`, by relevance
    /// and then name.
    fn rank(&self, lows: &Vec<String>, q: &String) -> (r: Vec<usize>)
        requires
            lows@.len() == self.ships@.len(),
        ensures
            r@ == ranked(self.ships@, texts(lows@), q@, self.ships@.len()),
    {
        let ghost tl = texts(lows@);
        let mut order: Vec<usize> = Vec::new();
        let mut i: usize = 0;
        while i < self.ships.len()
            invariant
                i <= self.ships@.len(),
                lows@.len() == self.ships@.len(),
                tl == texts(lows@),
                order@ == ranked(self.ships@, tl, q@, i as nat),
            decreases self.ships@.len() - i,
        {
            proof {
                lemma_ranked_members(self.ships@, tl, q@, i as nat);
            }
            if text_contains(&lows[i], q) {
                let mut p: usize = 0;
                while p < order.len() && self.ranks_no_later(lows, q, order[p], i)
                    invariant
                        i < self.ships@.len(),
                        lows@.len() == self.ships@.len(),
                        tl == texts(lows@),
                        p <= order@.len(),
                        forall|k: int| 0 <= k < order@.len() ==> #[trigger] order@[k] < i,
                        insert_pos_from(self.ships@, tl, q@, order@, i, 0) == insert_pos_from(
                            self.ships@,
                            tl,
                            q@,
                            order@,
                            i,
                            p as int,
                        ),
                    decreases order@.len() - p,
                {
                    p = p + 1;
                }
                order.insert(p, i);
            }
            i = i + 1;
        }
        order
    }

    /// The lower-cased name of every ship, position for position.
    fn lowered(&self) -> (r: Vec<String>)
        ensures
            r@.len() == self.ships@.len(),
            texts(r@) == lowered_names(self.ships@),
    {
        let mut out: Vec<String> = Vec::new();
        let mut i: usize = 0;
        while i < self.ships.len()
            invariant
                i <= self.ships@.len(),
                out@.len() == i,
                forall|k: int| 0 <= k < i ==> (#[trigger] out@[k])@ == lower_of(self.ships@[k].name@),
            decreases self.ships@.len() - i,
        {
            out.push(to_lower(&self.ships[i].name));
            i = i + 1;
        }
        assert(texts(out@) =~= lowered_names(self.ships@));
        out
    }

    /// The ships at positions `order`, in that order.
    fn models_in(&self, order: &Vec<usize>) -> (r: Vec<ShipModel>)
        requires
            forall|k: int| 0 <= k < order@.len() ==> #[trigger] order@[k] < self.ships@.len(),
        ensures
            models_at(r@, self.ships@, order@),
    {
        let mut out: Vec<ShipModel> = Vec::new();
        let mut k: usize = 0;
        while k < order.len()
            invariant
                k <= order@.len(),
                forall|j: int| 0 <= j < order@.len() ==> #[trigger] order@[j] < self.ships@.len(),
                out@.len() == k,
                forall|j: int| 0 <= j < k ==> #[trigger] out@[j] == self.ships@[order@[j] as int],
            decreases order@.len() - k,
        {
            out.push(self.ships[order[k]].clone());
            k = k + 1;
        }
        out
    }

    /// Every ship model when there is no filter, ordered by name; else the
    /// models whose name holds `filter` regardless of case, ordered by
    /// relevance and then name (ties keep catalog order).
    pub fn list_ship_models(&self, filter: &Option<String>) -> (r: Vec<ShipModel>)
        ensures
            match filter {
                None => models_at(
                    r@,
                    self.ship_models(),
                    ranked(self.ship_models(), names_of(self.ship_models()), Seq::empty(), self.ship_models().len()),
                ),
                Some(f) => models_at(
                    r@,
                    self.ship_models(),
                    ranked(self.ship_models(), lowered_names(self.ship_models()), lower_of(f@), self.ship_models().len()),
                ),
            },
            filter is None ==> r@.len() == self.ship_models().len(),
    {
        let (lows, q) = match filter {
            None => {
                let mut names: Vec<String> = Vec::new();
                let mut i: usize = 0;
                while i < self.ships.len()
                    invariant
                        i <= self.ships@.len(),
                        names@.len() == i,
                        forall|k: int| 0 <= k < i ==> (#[trigger] names@[k])@ == self.ships@[k].name@,
                    decreases self.ships@.len() - i,
                {
                    names.push(self.ships[i].name.clone());
                    i = i + 1;
                }
                assert(texts(names@) =~= names_of(self.ships@));
                (names, String::new())
            },
            Some(f) => (self.lowered(), to_lower(f)),
        };
        let order = self.rank(&lows, &q);
        proof {
            lemma_ranked_members(self.ships@, texts(lows@), q@, self.ships@.len());
            if filter is None {
                lemma_ranked_empty_query(self.ships@, texts(lows@), q@, self.ships@.len());
            }
        }
        self.models_in(&order)
    }

    /// Suggestions from names and a query that are already lower-cased: at
    /// most the best 25 ships whose `lower_names` text holds `lower_query`, by
    /// relevance and then name (ties keep catalog order).
    pub fn suggest_lowered(&self, lower_names: &Vec<String>, lower_query: &String) -> (r: Vec<Choice>)
        requires
            lower_names@.len() == self.ship_models().len(),
        ensures
            choices_for(
                r@,
                self.ship_models(),
                capped(ranked(self.ship_models(), texts(lower_names@), lower_query@, self.ship_models().len())),
            ),
    {
        let order = self.rank(lower_names, lower_query);
        let ghost all = order@;
        proof {
            lemma_ranked_members(self.ships@, texts(lower_names@), lower_query@, self.ships@.len());
        }
        let n = if order.len() <= MAX_SUGGESTIONS { order.len() } else { MAX_SUGGESTIONS };
        let mut out: Vec<Choice> = Vec::new();
        let mut k: usize = 0;
        while k < n
            invariant
                n <= order@.len(),
                n == capped(all).len(),
                all == order@,
                forall|j: int| 0 <= j < order@.len() ==> #[trigger] order@[j] < self.ships@.len(),
                k <= n,
                out@.len() == k,
                forall|j: int|
                    0 <= j < k ==> (#[trigger] out@[j]).name@ == self.ships@[order@[j] as int].name@
                        && out@[j].value@ == self.ships@[order@[j] as int].id@,
            decreases n - k,
        {
            let s = &self.ships[order[k]];
            out.push(Choice { name: s.name.clone(), value: s.id.clone() });
            k = k + 1;
        }
        out
    }

    /// Autocomplete suggestions for the partial input `query`: at most the
    /// best 25 models whose name holds it regardless of case, by relevance and
    /// then name (ties keep catalog order). An empty query matches every model.
    pub fn suggest(&self, query: &String) -> (r: Vec<Choice>)
        ensures
            choices_for(r@, self.ship_models(), suggestion_order(self.ship_models(), query@)),
            r@.len() <= MAX_SUGGESTIONS,
            forall|k: int|
                0 <= k < r@.len() ==> is_substring(lower_of(query@), lower_of(#[trigger] r@[k].name@)),
            query@.len() == 0 ==> r@.len() == if self.ship_models().len() <= MAX_SUGGESTIONS {
                self.ship_models().len()
            } else {
                MAX_SUGGESTIONS as nat
            },
    {
        let count = self.ships.len();
        assert(count == self.ships@.len());
        let lows = self.lowered();
        let q = to_lower(query);
        let r = self.suggest_lowered(&lows, &q);
        proof {
            let order = suggestion_order(self.ships@, query@);
            law_suggestions_bounded_and_matching(self.ships@, query@);
            assert forall|k: int| 0 <= k < r@.len() implies is_substring(
                lower_of(query@),
                lower_of(#[trigger] r@[k].name@),
            ) by {
                assert(r@[k].name@ == self.ships@[order[k] as int].name@);
            }
            if query@.len() == 0 {
                lemma_ranked_empty_query(self.ships@, lowered_names(self.ships@), q@, self.ships@.len());
            }
        }
        r
    }
}

} // verus!
