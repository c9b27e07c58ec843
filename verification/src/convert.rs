//! Rule conversion: the pure mapping from one source rule to one target
//! command — path-to-pattern translation, header flattening, status
//! defaulting.

use vstd::prelude::*;

use crate::model::BeelzebubRule;
use crate::model::CommandModel;
use crate::model::Rule;
use crate::model::RuleModel;

verus! {

/// The routing key derived from a literal path: the path wrapped in
/// full-match anchors, so the pattern matches the whole request path.
pub open spec fn spec_routing_key(path: Seq<char>) -> Seq<char> {
    seq!['^'] + path + seq!['$']
}

/// Anchoring is injective: distinct paths derive distinct routing keys.
pub proof fn lemma_routing_key_injective(p1: Seq<char>, p2: Seq<char>)
    requires
        spec_routing_key(p1) == spec_routing_key(p2),
    ensures
        p1 == p2,
{
    assert(p1 =~= spec_routing_key(p1).subrange(1, spec_routing_key(p1).len() - 1));
    assert(p2 =~= spec_routing_key(p2).subrange(1, spec_routing_key(p2).len() - 1));
}

/// Derives the routing key `^<path>$` for a literal path. The converter
/// stores this as the command's `regex` and the merge engine re-derives it
/// as the dedup key, so the two can never drift apart. No pattern
/// metacharacters in the path are escaped; they propagate verbatim.
pub fn derive_routing_key(path: &str) -> (r: String)
    ensures
        r@ == spec_routing_key(path@),
{
    let mut r = String::from_str("^");
    r.append(path);
    r.append("$");
    proof {
        reveal_strlit("^");
        reveal_strlit("$");
        assert(r@ =~= spec_routing_key(path@));
    }
    r
}

/// One flattened header line: `<name>: <value>`.
pub open spec fn spec_header_line(name: Seq<char>, value: Seq<char>) -> Seq<char> {
    name + seq![':', ' '] + value
}

/// The set of flattened header lines of a header mapping. A set: two
/// entries that format to the same line collapse to one.
pub open spec fn spec_header_lines(headers: Seq<(Seq<char>, Seq<char>)>) -> Set<Seq<char>> {
    Set::new(
        |line: Seq<char>|
            exists|i: int|
                0 <= i < headers.len() && line == spec_header_line(headers[i].0, headers[i].1),
    )
}

/// The converted command for one source rule: the derived routing key, the
/// body copied verbatim into the handler, the flattened header-line set, the
/// status always carried over, and the provenance label as the name when the
/// rule supplied none of its own.
pub open spec fn spec_convert(r: RuleModel, provenance: Option<Seq<char>>) -> CommandModel {
    CommandModel {
        name: if r.filename is Some {
            r.filename
        } else {
            provenance
        },
        regex: spec_routing_key(r.path),
        handler: r.body,
        headers: spec_header_lines(r.headers),
        status_code: Some(r.status),
    }
}

fn make_header_line(name: &str, value: &str) -> (r: String)
    ensures
        r@ == spec_header_line(name@, value@),
{
    let mut r = String::from_str(name);
    r.append(": ");
    r.append(value);
    proof {
        reveal_strlit(": ");
        assert(r@ =~= spec_header_line(name@, value@));
    }
    r
}

fn lines_contain(lines: &Vec<String>, line: &String) -> (r: bool)
    ensures
        r == lines.deep_view().contains(line@),
{
    let mut i: usize = 0;
    while i < lines.len()
        invariant
            0 <= i <= lines.deep_view().len(),
            forall|k: int| 0 <= k < i ==> lines.deep_view()[k] != line@,
        decreases lines.deep_view().len() - i,
    {
        if lines[i] == *line {
            proof {
                assert(lines.deep_view()[i as int] == line@);
            }
            return true;
        }
        i += 1;
    }
    false
}

/// Flattens a header mapping into a duplicate-free vector of `name: value`
/// lines whose contents are exactly the header-line set. An empty mapping
/// yields an empty vector, not an absent one.
pub fn flatten_headers(headers: &Vec<(String, String)>) -> (lines: Vec<String>)
    ensures
        lines.deep_view().to_set() == spec_header_lines(headers.deep_view()),
        forall|i: int, j: int|
            0 <= i < j < lines.deep_view().len()
                ==> lines.deep_view()[i] != lines.deep_view()[j],
        headers.deep_view().len() == 0 ==> lines.deep_view().len() == 0,
{
    let mut lines: Vec<String> = Vec::new();
    let mut i: usize = 0;
    while i < headers.len()
        invariant
            0 <= i <= headers.deep_view().len(),
            lines.deep_view().to_set() == spec_header_lines(headers.deep_view().take(i as int)),
            forall|p: int, q: int|
                0 <= p < q < lines.deep_view().len()
                    ==> lines.deep_view()[p] != lines.deep_view()[q],
            i == 0 ==> lines.deep_view().len() == 0,
        decreases headers.deep_view().len() - i,
    {
        let ghost prior = lines.deep_view();
        let ghost prefix = headers.deep_view().take(i as int);
        let ghost next = headers.deep_view().take(i as int + 1);
        let line = make_header_line(headers[i].0.as_str(), headers[i].1.as_str());
        proof {
            assert(next.drop_last() =~= prefix);
            assert(next.last() == headers.deep_view()[i as int]);
        }
        if !lines_contain(&lines, &line) {
            lines.push(line);
            proof {
                let cur = lines.deep_view();
                assert(cur =~= prior.push(spec_header_line(next.last().0, next.last().1)));
                assert forall|p: int, q: int| 0 <= p < q < cur.len() implies cur[p] != cur[q] by {
                    if q == prior.len() {
                        assert(cur[p] == prior[p]);
                    }
                }
                assert forall|l: Seq<char>| cur.to_set().contains(l)
                    implies spec_header_lines(next).contains(l) by {
                    let v = choose|v: int| 0 <= v < cur.len() && cur[v] == l;
                    if v < prior.len() {
                        assert(prior.to_set().contains(l));
                        assert(spec_header_lines(prefix).contains(l));
                        let u = choose|u: int|
                            0 <= u < prefix.len() && l == spec_header_line(
                                prefix[u].0,
                                prefix[u].1,
                            );
                        assert(l == spec_header_line(next[u].0, next[u].1));
                    } else {
                        assert(l == spec_header_line(next[i as int].0, next[i as int].1));
                    }
                }
                assert forall|l: Seq<char>| spec_header_lines(next).contains(l)
                    implies cur.to_set().contains(l) by {
                    let w = choose|w: int|
                        0 <= w < next.len() && l == spec_header_line(next[w].0, next[w].1);
                    if w < i as int {
                        assert(l == spec_header_line(prefix[w].0, prefix[w].1));
                        assert(spec_header_lines(prefix).contains(l));
                        assert(prior.to_set().contains(l));
                        let v = choose|v: int| 0 <= v < prior.len() && prior[v] == l;
                        assert(cur[v] == l);
                    } else {
                        assert(cur[prior.len() as int] == l);
                    }
                }
                assert(cur.to_set() =~= spec_header_lines(next));
            }
        } else {
            proof {
                assert(prior.to_set().contains(line@));
                assert forall|l: Seq<char>| spec_header_lines(next).contains(l)
                    implies spec_header_lines(prefix).contains(l) by {
                    let w = choose|w: int|
                        0 <= w < next.len() && l == spec_header_line(next[w].0, next[w].1);
                    if w == i as int {
                        assert(l == line@);
                    } else {
                        assert(l == spec_header_line(prefix[w].0, prefix[w].1));
                    }
                }
                assert forall|l: Seq<char>| spec_header_lines(prefix).contains(l)
                    implies spec_header_lines(next).contains(l) by {
                    let w = choose|w: int|
                        0 <= w < prefix.len() && l == spec_header_line(prefix[w].0, prefix[w].1);
                    assert(l == spec_header_line(next[w].0, next[w].1));
                }
                assert(spec_header_lines(next) =~= spec_header_lines(prefix));
            }
        }
        i += 1;
    }
    proof {
        assert(headers.deep_view().take(headers.deep_view().len() as int) =~= headers.deep_view());
    }
    lines
}

/// Converts one source rule into one target command. This mapping cannot
/// fail: the routing key anchors the literal path, the handler copies the
/// body verbatim, the status is always carried over, the header lines form a
/// duplicate-free set, and the name falls back to the supplied provenance
/// label only when the rule carries none of its own.
pub fn convert_rule(rule: Rule, provenance: Option<String>) -> (cmd: BeelzebubRule)
    ensures
        cmd@ == spec_convert(rule@, provenance.deep_view()),
        cmd.wf(),
{
    let ghost rm = rule@;
    let ghost pm = provenance.deep_view();
    let name = match rule.filename {
        Some(own) => Some(own),
        None => provenance,
    };
    let regex = derive_routing_key(rule.path.as_str());
    let headers = flatten_headers(&rule.headers);
    let cmd = BeelzebubRule {
        name,
        regex,
        handler: rule.body,
        headers,
        status_code: Some(rule.status),
    };
    proof {
        assert(cmd@ =~= spec_convert(rm, pm));
    }
    cmd
}

} // verus!
