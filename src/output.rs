//! The fact accumulator and the document it renders.

use vstd::prelude::*;
use vstd::string::StringExecFns;
use crate::facts::{
    id_json, id_key_json, metadata_json, metadata_text, named_text_json, predicate_at,
    predicate_name, range_json, range_text, FactKind, GleanRange, LanguageId, ScipId,
    SymbolKind, ToolInfo, KIND_COUNT,
};
use crate::json::{
    append_array_reversed, array_json, decimal, json_string, json_u64, join, key_json,
    key_object, lemma_join_push, pair_json, pair_object, views,
};

verus! {

/// The largest number of records in one group of the document.
pub const CHUNK_SIZE: usize = 10000;

/// The records of every kind, as JSON texts, by position in the emission
/// order: what an accumulator holds.
pub type Records = Seq<Seq<Seq<char>>>;

/// A group of the document: the position of its kind in the emission order,
/// and its records.
pub type Group = (int, Seq<Seq<char>>);

/// An accumulator with no record of any kind.
pub open spec fn no_records() -> Records {
    Seq::new(KIND_COUNT as nat, |i: int| Seq::<Seq<char>>::empty())
}

/// `v` with `rec` appended to the records of kind `k`.
pub open spec fn appended(v: Records, k: FactKind, rec: Seq<char>) -> Records {
    v.update(k.rank(), v[k.rank()].push(rec))
}

/// The number of chunks that `n` records make.
pub open spec fn chunk_count(n: nat) -> nat {
    if n == 0 {
        0
    } else {
        ((n - 1) / (CHUNK_SIZE as int) + 1) as nat
    }
}

/// The end of chunk `j` of a sequence of length `n`.
pub open spec fn chunk_end(j: int, n: int) -> int {
    if (j + 1) * CHUNK_SIZE < n {
        (j + 1) * CHUNK_SIZE
    } else {
        n
    }
}

/// `s` cut, in order, into pieces of `CHUNK_SIZE` elements, the last of
/// which may be shorter.
pub open spec fn chunks(s: Seq<Seq<char>>) -> Seq<Seq<Seq<char>>> {
    Seq::new(
        chunk_count(s.len()),
        |j: int| s.subrange(j * CHUNK_SIZE, chunk_end(j, s.len() as int)),
    )
}

/// The groups of the kind at position `k`, whose records are `recs`: the
/// records reversed, then chunked.
pub open spec fn kind_groups(recs: Seq<Seq<char>>, k: int) -> Seq<Group> {
    chunks(recs.reverse()).map_values(|c: Seq<Seq<char>>| (k, c))
}

/// The groups of the first `k` kinds of the emission order.
pub open spec fn groups_upto(v: Records, k: nat) -> Seq<Group>
    decreases k,
{
    if k == 0 {
        Seq::empty()
    } else {
        groups_upto(v, (k - 1) as nat) + kind_groups(v[k - 1], k - 1)
    }
}

/// All groups of the document, in order.
pub open spec fn groups(v: Records) -> Seq<Group> {
    groups_upto(v, KIND_COUNT as nat)
}

/// The JSON object of one group.
pub open spec fn group_json(g: Group) -> Seq<char> {
    "{\"facts\":"@ + array_json(g.1) + ",\"predicate\":\""@ + predicate_at(g.0) + ".1\"}"@
}

/// The JSON texts of a sequence of groups.
pub open spec fn groups_json(gs: Seq<Group>) -> Seq<Seq<char>> {
    gs.map_values(|g: Group| group_json(g))
}

/// The document rendered from the records `v`.
pub open spec fn document(v: Records) -> Seq<char> {
    "["@ + join(groups_json(groups(v)), ",\n"@) + "]\n"@
}

proof fn lemma_chunk_count(n: nat, j: nat)
    ensures
        j * CHUNK_SIZE < n ==> j < chunk_count(n),
        j * CHUNK_SIZE >= n && (j == 0 || (j - 1) * CHUNK_SIZE < n) ==> j == chunk_count(n),
{
}

proof fn lemma_groups_json_push(gs: Seq<Group>, g: Group)
    ensures
        groups_json(gs.push(g)) == groups_json(gs).push(group_json(g)),
{
    assert(groups_json(gs.push(g)) =~= groups_json(gs).push(group_json(g)));
}

proof fn lemma_kind_group_at(recs: Seq<Seq<char>>, k: int, j: nat)
    requires
        j < chunk_count(recs.len()),
    ensures
        kind_groups(recs, k)[j as int] == (
        k,
        recs.reverse().subrange(j * CHUNK_SIZE, chunk_end(j as int, recs.len() as int)),
        ),
        kind_groups(recs, k).len() == chunk_count(recs.len()),
{
}

proof fn lemma_next_group(done: Seq<Group>, kg: Seq<Group>, j: nat, sep: Seq<char>)
    requires
        j < kg.len(),
    ensures
        done + kg.take(j + 1 as int) == (done + kg.take(j as int)).push(kg[j as int]),
        join(groups_json(done + kg.take(j + 1 as int)), sep) == if (done + kg.take(
            j as int,
        )).len() == 0 {
            group_json(kg[j as int])
        } else {
            join(groups_json(done + kg.take(j as int)), sep) + sep + group_json(kg[j as int])
        },
{
    let prev = done + kg.take(j as int);
    assert(done + kg.take(j + 1 as int) =~= prev.push(kg[j as int]));
    lemma_groups_json_push(prev, kg[j as int]);
    lemma_join_push(groups_json(prev), group_json(kg[j as int]), sep);
}

/// Writes the JSON object of the group of kind `k` whose records are the
/// elements `lo..hi` of `recs` reversed.
fn group_text(recs: &Vec<String>, lo: usize, hi: usize, k: usize) -> (r: String)
    requires
        lo <= hi <= recs@.len(),
        k < KIND_COUNT,
    ensures
        r@ == group_json((k as int, views(recs@).reverse().subrange(lo as int, hi as int))),
{
    let mut r = String::from_str("{\"facts\":");
    append_array_reversed(&mut r, recs, lo, hi);
    r.append(",\"predicate\":\"");
    r.append(predicate_name(k));
    r.append(".1\"}");
    r
}

/// Collects facts of every kind, in the order of their appends, and renders
/// them as one JSON document.
pub struct GleanJSONOutput {
    facts: Vec<Vec<String>>,
}

impl View for GleanJSONOutput {
    type V = Records;

    closed spec fn view(&self) -> Records {
        self.facts@.map_values(|v: Vec<String>| views(v@))
    }
}

impl Default for GleanJSONOutput {
    fn default() -> (r: Self)
        ensures
            r@ == no_records(),
    {
        GleanJSONOutput::new()
    }
}

impl GleanJSONOutput {
    /// One sequence of records for each kind.
    pub open spec fn wf(&self) -> bool {
        self@.len() == KIND_COUNT
    }

    /// An accumulator with no records.
    pub fn new() -> (r: Self)
        ensures
            r@ == no_records(),
            r.wf(),
    {
        let mut facts: Vec<Vec<String>> = Vec::new();
        let mut i: usize = 0;
        while i < KIND_COUNT
            invariant
                i <= KIND_COUNT,
                facts@.len() == i,
                forall|j: int| 0 <= j < i ==> (#[trigger] facts@[j])@.len() == 0,
            decreases KIND_COUNT - i,
        {
            facts.push(Vec::new());
            i = i + 1;
        }
        let r = GleanJSONOutput { facts };
        assert(r@ =~~= no_records());
        r
    }

    fn push_record(&mut self, kind: FactKind, rec: String)
        requires
            old(self).wf(),
        ensures
            final(self)@ == appended(old(self)@, kind, rec@),
            final(self).wf(),
    {
        let i = kind.index();
        self.facts[i].push(rec);
        proof {
            let v = old(self)@;
            assert(self@ =~~= appended(v, kind, rec@));
        }
    }

    /// Renders the document: an array of groups, one for each chunk of each
    /// kind's records, in the fixed predicate order, each kind's records
    /// last-appended first.
    pub fn to_json(self) -> (r: String)
        requires
            self.wf(),
        ensures
            r@ == document(self@),
    {
        let ghost v = self@;
        let mut out = String::from_str("[");
        let mut first = true;
        let mut k: usize = 0;
        while k < KIND_COUNT
            invariant
                k <= KIND_COUNT,
                self.wf(),
                v == self@,
                out@ == "["@ + join(groups_json(groups_upto(v, k as nat)), ",\n"@),
                first == (groups_upto(v, k as nat).len() == 0),
            decreases KIND_COUNT - k,
        {
            let recs = &self.facts[k];
            let n = recs.len();
            let ghost done = groups_upto(v, k as nat);
            let ghost kg = kind_groups(v[k as int], k as int);
            assert(v[k as int] == views(recs@));
            let mut start: usize = 0;
            let ghost mut j: nat = 0;
            while start < n
                invariant
                    start == (if j * CHUNK_SIZE < n {
                        j * CHUNK_SIZE
                    } else {
                        n as int
                    }),
                    j > 0 ==> (j - 1) * CHUNK_SIZE < n,
                    start <= n == recs@.len(),
                    j <= kg.len(),
                    k < KIND_COUNT,
                    v.len() == KIND_COUNT,
                    v[k as int] == views(recs@),
                    kg == kind_groups(v[k as int], k as int),
                    out@ == "["@ + join(groups_json(done + kg.take(j as int)), ",\n"@),
                    first == ((done + kg.take(j as int)).len() == 0),
                decreases n - start,
            {
                proof {
                    lemma_chunk_count(n as nat, j);
                }
                let end = if n - start > CHUNK_SIZE {
                    start + CHUNK_SIZE
                } else {
                    n
                };
                proof {
                    lemma_kind_group_at(v[k as int], k as int, j);
                    lemma_next_group(done, kg, j, ",\n"@);
                }
                let text = group_text(recs, start, end, k);
                if !first {
                    out.append(",\n");
                }
                out.append(text.as_str());
                proof {
                    let prev = groups_json(done + kg.take(j as int));
                    if first {
                        assert(out@ =~= "["@ + join(
                            groups_json(done + kg.take(j + 1 as int)),
                            ",\n"@,
                        ));
                    } else {
                        assert(out@ =~= "["@ + (join(prev, ",\n"@) + ",\n"@ + group_json(
                            kg[j as int],
                        )));
                    }
                }
                first = false;
                start = end;
                proof {
                    j = j + 1;
                }
            }
            proof {
                lemma_chunk_count(n as nat, j);
                assert(kg.take(j as int) =~= kg);
                assert(groups_upto(v, (k + 1) as nat) == done + kg);
            }
            k = k + 1;
        }
        out.append("]\n");
        out
    }

    fn named_text(id: ScipId, text: &str) -> (r: String)
        ensures
            r@ == named_text_json(id, text@),
    {
        pair_object("id", json_u64(id.0).as_str(), "key", json_string(text).as_str())
    }

    fn id_pair(a: &str, x: ScipId, b: &str, y: ScipId) -> (r: String)
        ensures
            r@ == pair_json(a@, id_json(x), b@, id_json(y)),
    {
        pair_object(a, json_u64(x.0).as_str(), b, json_u64(y.0).as_str())
    }

    /// Appends a source file: `path` under `src_file_id`.
    pub fn src_file(&mut self, src_file_id: ScipId, path: Box<str>)
        requires
            old(self).wf(),
        ensures
            final(self).wf(),
            final(self)@ == appended(
                old(self)@,
                FactKind::SrcFile,
                named_text_json(src_file_id, path@),
            ),
    {
        let rec = GleanJSONOutput::named_text(src_file_id, &*path);
        self.push_record(FactKind::SrcFile, rec);
    }

    /// Appends the language `lang` of the file `src_file_id`, under `lang_file_id`.
    pub fn file_lang(&mut self, lang_file_id: ScipId, src_file_id: ScipId, lang: LanguageId)
        requires
            old(self).wf(),
        ensures
            final(self).wf(),
            final(self)@ == appended(
                old(self)@,
                FactKind::FileLanguage,
                id_key_json(
                    lang_file_id,
                    pair_json("file"@, id_json(src_file_id), "language"@, decimal(lang.0 as nat)),
                ),
            ),
    {
        let key = pair_object(
            "file",
            json_u64(src_file_id.0).as_str(),
            "language",
            json_u64(lang.0 as u64).as_str(),
        );
        let rec = pair_object("id", json_u64(lang_file_id.0).as_str(), "key", key.as_str());
        self.push_record(FactKind::FileLanguage, rec);
    }

    /// Appends the documentation text `text` under `doc_id`.
    pub fn documentation(&mut self, doc_id: ScipId, text: Box<str>)
        requires
            old(self).wf(),
        ensures
            final(self).wf(),
            final(self)@ == appended(
                old(self)@,
                FactKind::Documentation,
                named_text_json(doc_id, text@),
            ),
    {
        let rec = GleanJSONOutput::named_text(doc_id, &*text);
        self.push_record(FactKind::Documentation, rec);
    }

    /// Appends that the symbol `symbol_id` is documented by `doc_id`; the
    /// record is identified by `doc_id`.
    pub fn symbol_documentation(&mut self, symbol_id: ScipId, doc_id: ScipId)
        requires
            old(self).wf(),
        ensures
            final(self).wf(),
            final(self)@ == appended(
                old(self)@,
                FactKind::SymbolDocumentation,
                id_key_json(
                    doc_id,
                    pair_json("docs"@, id_json(doc_id), "symbol"@, id_json(symbol_id)),
                ),
            ),
    {
        let key = GleanJSONOutput::id_pair("docs", doc_id, "symbol", symbol_id);
        let rec = pair_object("id", json_u64(doc_id.0).as_str(), "key", key.as_str());
        self.push_record(FactKind::SymbolDocumentation, rec);
    }

    /// Appends the range `range` of the file `file_id`, under `file_range_id`.
    pub fn file_range(&mut self, file_range_id: ScipId, file_id: ScipId, range: GleanRange)
        requires
            old(self).wf(),
        ensures
            final(self).wf(),
            final(self)@ == appended(
                old(self)@,
                FactKind::FileRange,
                id_key_json(
                    file_range_id,
                    pair_json("file"@, id_json(file_id), "range"@, range_json(range)),
                ),
            ),
    {
        let key = pair_object(
            "file",
            json_u64(file_id.0).as_str(),
            "range",
            range_text(&range).as_str(),
        );
        let rec = pair_object("id", json_u64(file_range_id.0).as_str(), "key", key.as_str());
        self.push_record(FactKind::FileRange, rec);
    }

    /// Appends the symbol string `symbol` under `symbol_id`.
    pub fn symbol(&mut self, symbol_id: ScipId, symbol: Box<str>)
        requires
            old(self).wf(),
        ensures
            final(self).wf(),
            final(self)@ == appended(
                old(self)@,
                FactKind::Symbol,
                named_text_json(symbol_id, symbol@),
            ),
    {
        let rec = GleanJSONOutput::named_text(symbol_id, &*symbol);
        self.push_record(FactKind::Symbol, rec);
    }

    /// Appends that the symbol `symbol_id` is defined at `file_range_id`.
    pub fn definition(&mut self, symbol_id: ScipId, file_range_id: ScipId)
        requires
            old(self).wf(),
        ensures
            final(self).wf(),
            final(self)@ == appended(
                old(self)@,
                FactKind::Definition,
                key_json(
                    pair_json("location"@, id_json(file_range_id), "symbol"@, id_json(symbol_id)),
                ),
            ),
    {
        let key = GleanJSONOutput::id_pair("location", file_range_id, "symbol", symbol_id);
        self.push_record(FactKind::Definition, key_object(key.as_str()));
    }

    /// Appends that the symbol `symbol_id` is referred to at `file_range_id`.
    pub fn reference(&mut self, symbol_id: ScipId, file_range_id: ScipId)
        requires
            old(self).wf(),
        ensures
            final(self).wf(),
            final(self)@ == appended(
                old(self)@,
                FactKind::Reference,
                key_json(
                    pair_json("location"@, id_json(file_range_id), "symbol"@, id_json(symbol_id)),
                ),
            ),
    {
        let key = GleanJSONOutput::id_pair("location", file_range_id, "symbol", symbol_id);
        self.push_record(FactKind::Reference, key_object(key.as_str()));
    }

    /// Appends the local name `text` under `name_id`.
    pub fn local_name(&mut self, name_id: ScipId, text: Box<str>)
        requires
            old(self).wf(),
        ensures
            final(self).wf(),
            final(self)@ == appended(
                old(self)@,
                FactKind::LocalName,
                named_text_json(name_id, text@),
            ),
    {
        let rec = GleanJSONOutput::named_text(name_id, &*text);
        self.push_record(FactKind::LocalName, rec);
    }

    /// Appends that the symbol `symbol_id` has the name `name_id`.
    pub fn symbol_name(&mut self, symbol_id: ScipId, name_id: ScipId)
        requires
            old(self).wf(),
        ensures
            final(self).wf(),
            final(self)@ == appended(
                old(self)@,
                FactKind::SymbolName,
                key_json(pair_json("name"@, id_json(name_id), "symbol"@, id_json(symbol_id))),
            ),
    {
        let key = GleanJSONOutput::id_pair("name", name_id, "symbol", symbol_id);
        self.push_record(FactKind::SymbolName, key_object(key.as_str()));
    }

    /// Appends that the symbol `symbol_id` is of kind `kind`.
    pub fn symbol_kind(&mut self, symbol_id: ScipId, kind: SymbolKind)
        requires
            old(self).wf(),
        ensures
            final(self).wf(),
            final(self)@ == appended(
                old(self)@,
                FactKind::SymbolKindOf,
                key_json(
                    pair_json("kind"@, decimal(kind.0 as nat), "symbol"@, id_json(symbol_id)),
                ),
            ),
    {
        let key = pair_object(
            "kind",
            json_u64(kind.0 as u64).as_str(),
            "symbol",
            json_u64(symbol_id.0).as_str(),
        );
        self.push_record(FactKind::SymbolKindOf, key_object(key.as_str()));
    }

    /// Appends the index metadata: format version, text encoding and the
    /// optional tool descriptor.
    pub fn metadata(&mut self, version: i32, text_encoding: i32, tool_info: Option<ToolInfo>)
        requires
            old(self).wf(),
        ensures
            final(self).wf(),
            final(self)@ == appended(
                old(self)@,
                FactKind::Metadata,
                key_json(metadata_json(version, text_encoding, tool_info)),
            ),
    {
        let key = metadata_text(version, text_encoding, &tool_info);
        self.push_record(FactKind::Metadata, key_object(key.as_str()));
    }

    /// Appends the display name `name` under `fact_id`.
    pub fn display_name(&mut self, fact_id: ScipId, name: Box<str>)
        requires
            old(self).wf(),
        ensures
            final(self).wf(),
            final(self)@ == appended(
                old(self)@,
                FactKind::DisplayName,
                named_text_json(fact_id, name@),
            ),
    {
        let rec = GleanJSONOutput::named_text(fact_id, &*name);
        self.push_record(FactKind::DisplayName, rec);
    }

    /// Appends that the symbol `symbol_id` has the display name `name_id`.
    pub fn display_name_symbol(&mut self, symbol_id: ScipId, name_id: ScipId)
        requires
            old(self).wf(),
        ensures
            final(self).wf(),
            final(self)@ == appended(
                old(self)@,
                FactKind::DisplayNameSymbol,
                key_json(
                    pair_json("displayName"@, id_json(name_id), "symbol"@, id_json(symbol_id)),
                ),
            ),
    {
        let key = GleanJSONOutput::id_pair("displayName", name_id, "symbol", symbol_id);
        self.push_record(FactKind::DisplayNameSymbol, key_object(key.as_str()));
    }
}

} // verus!
