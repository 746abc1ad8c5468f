//! The endpoint whitelists and the membership test over them.
use vstd::prelude::*;

verus! {

/// Lexicographic order on characters by code point, which is the order of `str`.
pub open spec fn lex_le(a: Seq<char>, b: Seq<char>) -> bool
    decreases a.len(),
{
    if a.len() == 0 {
        true
    } else if b.len() == 0 {
        false
    } else if a[0] == b[0] {
        lex_le(a.drop_first(), b.drop_first())
    } else {
        (a[0] as int) < (b[0] as int)
    }
}

/// Each entry is at most the next one.
pub open spec fn sorted(s: Seq<Seq<char>>) -> bool {
    forall|i: int| 0 <= i < s.len() - 1 ==> lex_le(#[trigger] s[i], s[i + 1])
}

pub open spec fn strs_view(v: Seq<&str>) -> Seq<Seq<char>> {
    v.map_values(|s: &str| s@)
}

/// Two strings that agree before position `k`, where the first ends or is below the second, are
/// ordered.
proof fn lemma_lex_le_at(a: Seq<char>, b: Seq<char>, k: int)
    requires
        0 <= k <= a.len(),
        k <= b.len(),
        a.subrange(0, k) == b.subrange(0, k),
        k == a.len() || (k < b.len() && (a[k] as int) < (b[k] as int)),
    ensures
        lex_le(a, b),
    decreases k,
{
    if k > 0 {
        assert(a[0] == a.subrange(0, k)[0]);
        assert(b[0] == b.subrange(0, k)[0]);
        assert(a.drop_first().subrange(0, k - 1) =~= a.subrange(0, k).drop_first());
        assert(b.drop_first().subrange(0, k - 1) =~= b.subrange(0, k).drop_first());
        lemma_lex_le_at(a.drop_first(), b.drop_first(), k - 1);
    }
}

proof fn lemma_lex_total(a: Seq<char>, b: Seq<char>)
    ensures
        lex_le(a, b) || lex_le(b, a),
    decreases a.len(),
{
    if a.len() > 0 && b.len() > 0 {
        if a[0] == b[0] {
            lemma_lex_total(a.drop_first(), b.drop_first());
        } else {
            assert((a[0] as int) != (b[0] as int));
        }
    }
}

proof fn lemma_lex_antisym(a: Seq<char>, b: Seq<char>)
    requires
        lex_le(a, b),
        lex_le(b, a),
    ensures
        a == b,
    decreases a.len(),
{
    if a.len() > 0 && b.len() > 0 {
        lemma_lex_antisym(a.drop_first(), b.drop_first());
        assert(a =~= seq![a[0]] + a.drop_first());
        assert(b =~= seq![b[0]] + b.drop_first());
    } else {
        assert(a =~= b);
    }
}

proof fn lemma_lex_trans(a: Seq<char>, b: Seq<char>, c: Seq<char>)
    requires
        lex_le(a, b),
        lex_le(b, c),
    ensures
        lex_le(a, c),
    decreases a.len(),
{
    if a.len() > 0 && b.len() > 0 && c.len() > 0 && a[0] == b[0] && b[0] == c[0] {
        lemma_lex_trans(a.drop_first(), b.drop_first(), c.drop_first());
    }
}

/// In a sorted sequence every entry is at most every later one.
proof fn lemma_sorted_pairwise(s: Seq<Seq<char>>, i: int, j: int)
    requires
        sorted(s),
        0 <= i <= j < s.len(),
    ensures
        lex_le(s[i], s[j]),
    decreases j - i,
{
    if i == j {
        lemma_lex_refl(s[i]);
    } else {
        lemma_sorted_pairwise(s, i, j - 1);
        lemma_lex_trans(s[i], s[j - 1], s[j]);
    }
}

proof fn lemma_lex_refl(a: Seq<char>)
    ensures
        lex_le(a, a),
    decreases a.len(),
{
    if a.len() > 0 {
        lemma_lex_refl(a.drop_first());
    }
}

/// Compares two strings: -1, 0 or 1 as the first is below, equal to or above the second.
pub fn compare_str(a: &str, b: &str) -> (r: i8)
    ensures
        r == 0 <==> a@ == b@,
        r < 0 ==> lex_le(a@, b@),
        r > 0 ==> lex_le(b@, a@),
        -1 <= r <= 1,
{
    let la = a.unicode_len();
    let lb = b.unicode_len();
    let mut i: usize = 0;
    while i < la && i < lb
        invariant
            la == a@.len(),
            lb == b@.len(),
            i <= la,
            i <= lb,
            a@.subrange(0, i as int) == b@.subrange(0, i as int),
        decreases la - i,
    {
        let ca = a.get_char(i);
        let cb = b.get_char(i);
        if ca != cb {
            proof {
                if (ca as u32) < (cb as u32) {
                    lemma_lex_le_at(a@, b@, i as int);
                } else {
                    lemma_lex_le_at(b@, a@, i as int);
                }
            }
            return if (ca as u32) < (cb as u32) {
                -1
            } else {
                1
            };
        }
        assert(a@.subrange(0, i + 1) =~= a@.subrange(0, i as int).push(ca));
        assert(b@.subrange(0, i + 1) =~= b@.subrange(0, i as int).push(cb));
        i += 1;
    }
    if la == lb {
        assert(a@ =~= a@.subrange(0, i as int));
        assert(b@ =~= b@.subrange(0, i as int));
        0
    } else if la < lb {
        proof {
            lemma_lex_le_at(a@, b@, i as int);
        }
        -1
    } else {
        proof {
            lemma_lex_le_at(b@, a@, i as int);
        }
        1
    }
}

/// Whether `key` is an entry of the sorted `list`, by binary search.
pub fn contains_sorted(list: &Vec<&str>, key: &str) -> (r: bool)
    requires
        sorted(strs_view(list@)),
    ensures
        r == strs_view(list@).contains(key@),
{
    let ghost s = strs_view(list@);
    let mut lo: usize = 0;
    let mut hi: usize = list.len();
    while lo < hi
        invariant
            s == strs_view(list@),
            sorted(s),
            lo <= hi <= s.len(),
            forall|i: int| 0 <= i < lo ==> s[i] != key@,
            forall|i: int| hi <= i < s.len() ==> s[i] != key@,
        decreases hi - lo,
    {
        let mid = lo + (hi - lo) / 2;
        let c = compare_str(list[mid], key);
        assert(s[mid as int] == list@[mid as int]@);
        if c == 0 {
            return true;
        } else if c < 0 {
            assert forall|i: int| 0 <= i <= mid implies s[i] != key@ by {
                lemma_sorted_pairwise(s, i, mid as int);
                if s[i] == key@ {
                    lemma_lex_antisym(s[mid as int], key@);
                }
            }
            lo = mid + 1;
        } else {
            assert forall|i: int| mid <= i < s.len() implies s[i] != key@ by {
                lemma_sorted_pairwise(s, mid as int, i);
                if s[i] == key@ {
                    lemma_lex_antisym(s[mid as int], key@);
                }
            }
            hi = mid;
        }
    }
    proof {
        if s.contains(key@) {
            let j = choose|j: int| 0 <= j < s.len() && s[j] == key@;
        }
    }
    false
}

/// REST path templates reported in metrics: search, recommend, scroll and update endpoints.
pub open spec fn rest_whitelist() -> Seq<Seq<char>> {
    seq![
        "/collections/{name}/index"@,
        "/collections/{name}/points"@,
        "/collections/{name}/points/batch"@,
        "/collections/{name}/points/count"@,
        "/collections/{name}/points/delete"@,
        "/collections/{name}/points/discover"@,
        "/collections/{name}/points/discover/batch"@,
        "/collections/{name}/points/facet"@,
        "/collections/{name}/points/payload"@,
        "/collections/{name}/points/payload/clear"@,
        "/collections/{name}/points/payload/delete"@,
        "/collections/{name}/points/query"@,
        "/collections/{name}/points/query/batch"@,
        "/collections/{name}/points/query/groups"@,
        "/collections/{name}/points/recommend"@,
        "/collections/{name}/points/recommend/batch"@,
        "/collections/{name}/points/recommend/groups"@,
        "/collections/{name}/points/scroll"@,
        "/collections/{name}/points/search"@,
        "/collections/{name}/points/search/batch"@,
        "/collections/{name}/points/search/groups"@,
        "/collections/{name}/points/search/matrix/offsets"@,
        "/collections/{name}/points/search/matrix/pairs"@,
        "/collections/{name}/points/vectors"@,
        "/collections/{name}/points/vectors/delete"@,
    ]
}
/// gRPC method names reported in metrics: search, recommend, scroll and update methods.
pub open spec fn grpc_whitelist() -> Seq<Seq<char>> {
    seq![
        "/qdrant.Points/ClearPayload"@,
        "/qdrant.Points/Count"@,
        "/qdrant.Points/Delete"@,
        "/qdrant.Points/DeletePayload"@,
        "/qdrant.Points/Discover"@,
        "/qdrant.Points/DiscoverBatch"@,
        "/qdrant.Points/Facet"@,
        "/qdrant.Points/Get"@,
        "/qdrant.Points/OverwritePayload"@,
        "/qdrant.Points/Query"@,
        "/qdrant.Points/QueryBatch"@,
        "/qdrant.Points/QueryGroups"@,
        "/qdrant.Points/Recommend"@,
        "/qdrant.Points/RecommendBatch"@,
        "/qdrant.Points/RecommendGroups"@,
        "/qdrant.Points/Scroll"@,
        "/qdrant.Points/Search"@,
        "/qdrant.Points/SearchBatch"@,
        "/qdrant.Points/SearchGroups"@,
        "/qdrant.Points/SetPayload"@,
        "/qdrant.Points/UpdateBatch"@,
        "/qdrant.Points/UpdateVectors"@,
        "/qdrant.Points/Upsert"@,
    ]
}
/// The REST whitelist, in ascending order.
pub fn rest_endpoint_whitelist() -> (r: Vec<&'static str>)
    ensures
        strs_view(r@) == rest_whitelist(),
{
    let r = vec![
        "/collections/{name}/index",
        "/collections/{name}/points",
        "/collections/{name}/points/batch",
        "/collections/{name}/points/count",
        "/collections/{name}/points/delete",
        "/collections/{name}/points/discover",
        "/collections/{name}/points/discover/batch",
        "/collections/{name}/points/facet",
        "/collections/{name}/points/payload",
        "/collections/{name}/points/payload/clear",
        "/collections/{name}/points/payload/delete",
        "/collections/{name}/points/query",
        "/collections/{name}/points/query/batch",
        "/collections/{name}/points/query/groups",
        "/collections/{name}/points/recommend",
        "/collections/{name}/points/recommend/batch",
        "/collections/{name}/points/recommend/groups",
        "/collections/{name}/points/scroll",
        "/collections/{name}/points/search",
        "/collections/{name}/points/search/batch",
        "/collections/{name}/points/search/groups",
        "/collections/{name}/points/search/matrix/offsets",
        "/collections/{name}/points/search/matrix/pairs",
        "/collections/{name}/points/vectors",
        "/collections/{name}/points/vectors/delete",
    ];
    assert(strs_view(r@) =~= rest_whitelist());
    r
}
/// The gRPC whitelist, in ascending order.
pub fn grpc_endpoint_whitelist() -> (r: Vec<&'static str>)
    ensures
        strs_view(r@) == grpc_whitelist(),
{
    let r = vec![
        "/qdrant.Points/ClearPayload",
        "/qdrant.Points/Count",
        "/qdrant.Points/Delete",
        "/qdrant.Points/DeletePayload",
        "/qdrant.Points/Discover",
        "/qdrant.Points/DiscoverBatch",
        "/qdrant.Points/Facet",
        "/qdrant.Points/Get",
        "/qdrant.Points/OverwritePayload",
        "/qdrant.Points/Query",
        "/qdrant.Points/QueryBatch",
        "/qdrant.Points/QueryGroups",
        "/qdrant.Points/Recommend",
        "/qdrant.Points/RecommendBatch",
        "/qdrant.Points/RecommendGroups",
        "/qdrant.Points/Scroll",
        "/qdrant.Points/Search",
        "/qdrant.Points/SearchBatch",
        "/qdrant.Points/SearchGroups",
        "/qdrant.Points/SetPayload",
        "/qdrant.Points/UpdateBatch",
        "/qdrant.Points/UpdateVectors",
        "/qdrant.Points/Upsert",
    ];
    assert(strs_view(r@) =~= grpc_whitelist());
    r
}
/// Each REST whitelist entry is at most the next one, so binary search over it is sound.
pub proof fn lemma_rest_whitelist_sorted()
    ensures
        sorted(rest_whitelist()),
{
    let s = rest_whitelist();
    assert forall|i: int| 0 <= i < s.len() - 1 implies lex_le(#[trigger] s[i], s[i + 1]) by {
        if i == 0 {
            reveal_strlit("/collections/{name}/index");
            reveal_strlit("/collections/{name}/points");
            assert(s[0].subrange(0, 20) =~= s[1].subrange(0, 20));
            lemma_lex_le_at(s[0], s[1], 20);
        } else if i == 1 {
            reveal_strlit("/collections/{name}/points");
            reveal_strlit("/collections/{name}/points/batch");
            assert(s[1].subrange(0, 26) =~= s[2].subrange(0, 26));
            lemma_lex_le_at(s[1], s[2], 26);
        } else if i == 2 {
            reveal_strlit("/collections/{name}/points/batch");
            reveal_strlit("/collections/{name}/points/count");
            assert(s[2].subrange(0, 27) =~= s[3].subrange(0, 27));
            lemma_lex_le_at(s[2], s[3], 27);
        } else if i == 3 {
            reveal_strlit("/collections/{name}/points/count");
            reveal_strlit("/collections/{name}/points/delete");
            assert(s[3].subrange(0, 27) =~= s[4].subrange(0, 27));
            lemma_lex_le_at(s[3], s[4], 27);
        } else if i == 4 {
            reveal_strlit("/collections/{name}/points/delete");
            reveal_strlit("/collections/{name}/points/discover");
            assert(s[4].subrange(0, 28) =~= s[5].subrange(0, 28));
            lemma_lex_le_at(s[4], s[5], 28);
        } else if i == 5 {
            reveal_strlit("/collections/{name}/points/discover");
            reveal_strlit("/collections/{name}/points/discover/batch");
            assert(s[5].subrange(0, 35) =~= s[6].subrange(0, 35));
            lemma_lex_le_at(s[5], s[6], 35);
        } else if i == 6 {
            reveal_strlit("/collections/{name}/points/discover/batch");
            reveal_strlit("/collections/{name}/points/facet");
            assert(s[6].subrange(0, 27) =~= s[7].subrange(0, 27));
            lemma_lex_le_at(s[6], s[7], 27);
        } else if i == 7 {
            reveal_strlit("/collections/{name}/points/facet");
            reveal_strlit("/collections/{name}/points/payload");
            assert(s[7].subrange(0, 27) =~= s[8].subrange(0, 27));
            lemma_lex_le_at(s[7], s[8], 27);
        } else if i == 8 {
            reveal_strlit("/collections/{name}/points/payload");
            reveal_strlit("/collections/{name}/points/payload/clear");
            assert(s[8].subrange(0, 34) =~= s[9].subrange(0, 34));
            lemma_lex_le_at(s[8], s[9], 34);
        } else if i == 9 {
            reveal_strlit("/collections/{name}/points/payload/clear");
            reveal_strlit("/collections/{name}/points/payload/delete");
            assert(s[9].subrange(0, 35) =~= s[10].subrange(0, 35));
            lemma_lex_le_at(s[9], s[10], 35);
        } else if i == 10 {
            reveal_strlit("/collections/{name}/points/payload/delete");
            reveal_strlit("/collections/{name}/points/query");
            assert(s[10].subrange(0, 27) =~= s[11].subrange(0, 27));
            lemma_lex_le_at(s[10], s[11], 27);
        } else if i == 11 {
            reveal_strlit("/collections/{name}/points/query");
            reveal_strlit("/collections/{name}/points/query/batch");
            assert(s[11].subrange(0, 32) =~= s[12].subrange(0, 32));
            lemma_lex_le_at(s[11], s[12], 32);
        } else if i == 12 {
            reveal_strlit("/collections/{name}/points/query/batch");
            reveal_strlit("/collections/{name}/points/query/groups");
            assert(s[12].subrange(0, 33) =~= s[13].subrange(0, 33));
            lemma_lex_le_at(s[12], s[13], 33);
        } else if i == 13 {
            reveal_strlit("/collections/{name}/points/query/groups");
            reveal_strlit("/collections/{name}/points/recommend");
            assert(s[13].subrange(0, 27) =~= s[14].subrange(0, 27));
            lemma_lex_le_at(s[13], s[14], 27);
        } else if i == 14 {
            reveal_strlit("/collections/{name}/points/recommend");
            reveal_strlit("/collections/{name}/points/recommend/batch");
            assert(s[14].subrange(0, 36) =~= s[15].subrange(0, 36));
            lemma_lex_le_at(s[14], s[15], 36);
        } else if i == 15 {
            reveal_strlit("/collections/{name}/points/recommend/batch");
            reveal_strlit("/collections/{name}/points/recommend/groups");
            assert(s[15].subrange(0, 37) =~= s[16].subrange(0, 37));
            lemma_lex_le_at(s[15], s[16], 37);
        } else if i == 16 {
            reveal_strlit("/collections/{name}/points/recommend/groups");
            reveal_strlit("/collections/{name}/points/scroll");
            assert(s[16].subrange(0, 27) =~= s[17].subrange(0, 27));
            lemma_lex_le_at(s[16], s[17], 27);
        } else if i == 17 {
            reveal_strlit("/collections/{name}/points/scroll");
            reveal_strlit("/collections/{name}/points/search");
            assert(s[17].subrange(0, 28) =~= s[18].subrange(0, 28));
            lemma_lex_le_at(s[17], s[18], 28);
        } else if i == 18 {
            reveal_strlit("/collections/{name}/points/search");
            reveal_strlit("/collections/{name}/points/search/batch");
            assert(s[18].subrange(0, 33) =~= s[19].subrange(0, 33));
            lemma_lex_le_at(s[18], s[19], 33);
        } else if i == 19 {
            reveal_strlit("/collections/{name}/points/search/batch");
            reveal_strlit("/collections/{name}/points/search/groups");
            assert(s[19].subrange(0, 34) =~= s[20].subrange(0, 34));
            lemma_lex_le_at(s[19], s[20], 34);
        } else if i == 20 {
            reveal_strlit("/collections/{name}/points/search/groups");
            reveal_strlit("/collections/{name}/points/search/matrix/offsets");
            assert(s[20].subrange(0, 34) =~= s[21].subrange(0, 34));
            lemma_lex_le_at(s[20], s[21], 34);
        } else if i == 21 {
            reveal_strlit("/collections/{name}/points/search/matrix/offsets");
            reveal_strlit("/collections/{name}/points/search/matrix/pairs");
            assert(s[21].subrange(0, 41) =~= s[22].subrange(0, 41));
            lemma_lex_le_at(s[21], s[22], 41);
        } else if i == 22 {
            reveal_strlit("/collections/{name}/points/search/matrix/pairs");
            reveal_strlit("/collections/{name}/points/vectors");
            assert(s[22].subrange(0, 27) =~= s[23].subrange(0, 27));
            lemma_lex_le_at(s[22], s[23], 27);
        } else if i == 23 {
            reveal_strlit("/collections/{name}/points/vectors");
            reveal_strlit("/collections/{name}/points/vectors/delete");
            assert(s[23].subrange(0, 34) =~= s[24].subrange(0, 34));
            lemma_lex_le_at(s[23], s[24], 34);
        }
    }
}
/// Each gRPC whitelist entry is at most the next one, so binary search over it is sound.
pub proof fn lemma_grpc_whitelist_sorted()
    ensures
        sorted(grpc_whitelist()),
{
    let s = grpc_whitelist();
    assert forall|i: int| 0 <= i < s.len() - 1 implies lex_le(#[trigger] s[i], s[i + 1]) by {
        if i == 0 {
            reveal_strlit("/qdrant.Points/ClearPayload");
            reveal_strlit("/qdrant.Points/Count");
            assert(s[0].subrange(0, 16) =~= s[1].subrange(0, 16));
            lemma_lex_le_at(s[0], s[1], 16);
        } else if i == 1 {
            reveal_strlit("/qdrant.Points/Count");
            reveal_strlit("/qdrant.Points/Delete");
            assert(s[1].subrange(0, 15) =~= s[2].subrange(0, 15));
            lemma_lex_le_at(s[1], s[2], 15);
        } else if i == 2 {
            reveal_strlit("/qdrant.Points/Delete");
            reveal_strlit("/qdrant.Points/DeletePayload");
            assert(s[2].subrange(0, 21) =~= s[3].subrange(0, 21));
            lemma_lex_le_at(s[2], s[3], 21);
        } else if i == 3 {
            reveal_strlit("/qdrant.Points/DeletePayload");
            reveal_strlit("/qdrant.Points/Discover");
            assert(s[3].subrange(0, 16) =~= s[4].subrange(0, 16));
            lemma_lex_le_at(s[3], s[4], 16);
        } else if i == 4 {
            reveal_strlit("/qdrant.Points/Discover");
            reveal_strlit("/qdrant.Points/DiscoverBatch");
            assert(s[4].subrange(0, 23) =~= s[5].subrange(0, 23));
            lemma_lex_le_at(s[4], s[5], 23);
        } else if i == 5 {
            reveal_strlit("/qdrant.Points/DiscoverBatch");
            reveal_strlit("/qdrant.Points/Facet");
            assert(s[5].subrange(0, 15) =~= s[6].subrange(0, 15));
            lemma_lex_le_at(s[5], s[6], 15);
        } else if i == 6 {
            reveal_strlit("/qdrant.Points/Facet");
            reveal_strlit("/qdrant.Points/Get");
            assert(s[6].subrange(0, 15) =~= s[7].subrange(0, 15));
            lemma_lex_le_at(s[6], s[7], 15);
        } else if i == 7 {
            reveal_strlit("/qdrant.Points/Get");
            reveal_strlit("/qdrant.Points/OverwritePayload");
            assert(s[7].subrange(0, 15) =~= s[8].subrange(0, 15));
            lemma_lex_le_at(s[7], s[8], 15);
        } else if i == 8 {
            reveal_strlit("/qdrant.Points/OverwritePayload");
            reveal_strlit("/qdrant.Points/Query");
            assert(s[8].subrange(0, 15) =~= s[9].subrange(0, 15));
            lemma_lex_le_at(s[8], s[9], 15);
        } else if i == 9 {
            reveal_strlit("/qdrant.Points/Query");
            reveal_strlit("/qdrant.Points/QueryBatch");
            assert(s[9].subrange(0, 20) =~= s[10].subrange(0, 20));
            lemma_lex_le_at(s[9], s[10], 20);
        } else if i == 10 {
            reveal_strlit("/qdrant.Points/QueryBatch");
            reveal_strlit("/qdrant.Points/QueryGroups");
            assert(s[10].subrange(0, 20) =~= s[11].subrange(0, 20));
            lemma_lex_le_at(s[10], s[11], 20);
        } else if i == 11 {
            reveal_strlit("/qdrant.Points/QueryGroups");
            reveal_strlit("/qdrant.Points/Recommend");
            assert(s[11].subrange(0, 15) =~= s[12].subrange(0, 15));
            lemma_lex_le_at(s[11], s[12], 15);
        } else if i == 12 {
            reveal_strlit("/qdrant.Points/Recommend");
            reveal_strlit("/qdrant.Points/RecommendBatch");
            assert(s[12].subrange(0, 24) =~= s[13].subrange(0, 24));
            lemma_lex_le_at(s[12], s[13], 24);
        } else if i == 13 {
            reveal_strlit("/qdrant.Points/RecommendBatch");
            reveal_strlit("/qdrant.Points/RecommendGroups");
            assert(s[13].subrange(0, 24) =~= s[14].subrange(0, 24));
            lemma_lex_le_at(s[13], s[14], 24);
        } else if i == 14 {
            reveal_strlit("/qdrant.Points/RecommendGroups");
            reveal_strlit("/qdrant.Points/Scroll");
            assert(s[14].subrange(0, 15) =~= s[15].subrange(0, 15));
            lemma_lex_le_at(s[14], s[15], 15);
        } else if i == 15 {
            reveal_strlit("/qdrant.Points/Scroll");
            reveal_strlit("/qdrant.Points/Search");
            assert(s[15].subrange(0, 16) =~= s[16].subrange(0, 16));
            lemma_lex_le_at(s[15], s[16], 16);
        } else if i == 16 {
            reveal_strlit("/qdrant.Points/Search");
            reveal_strlit("/qdrant.Points/SearchBatch");
            assert(s[16].subrange(0, 21) =~= s[17].subrange(0, 21));
            lemma_lex_le_at(s[16], s[17], 21);
        } else if i == 17 {
            reveal_strlit("/qdrant.Points/SearchBatch");
            reveal_strlit("/qdrant.Points/SearchGroups");
            assert(s[17].subrange(0, 21) =~= s[18].subrange(0, 21));
            lemma_lex_le_at(s[17], s[18], 21);
        } else if i == 18 {
            reveal_strlit("/qdrant.Points/SearchGroups");
            reveal_strlit("/qdrant.Points/SetPayload");
            assert(s[18].subrange(0, 17) =~= s[19].subrange(0, 17));
            lemma_lex_le_at(s[18], s[19], 17);
        } else if i == 19 {
            reveal_strlit("/qdrant.Points/SetPayload");
            reveal_strlit("/qdrant.Points/UpdateBatch");
            assert(s[19].subrange(0, 15) =~= s[20].subrange(0, 15));
            lemma_lex_le_at(s[19], s[20], 15);
        } else if i == 20 {
            reveal_strlit("/qdrant.Points/UpdateBatch");
            reveal_strlit("/qdrant.Points/UpdateVectors");
            assert(s[20].subrange(0, 21) =~= s[21].subrange(0, 21));
            lemma_lex_le_at(s[20], s[21], 21);
        } else if i == 21 {
            reveal_strlit("/qdrant.Points/UpdateVectors");
            reveal_strlit("/qdrant.Points/Upsert");
            assert(s[21].subrange(0, 17) =~= s[22].subrange(0, 17));
            lemma_lex_le_at(s[21], s[22], 17);
        }
    }
}

} // verus!
