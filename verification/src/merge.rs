//! Merge engine: folds converted commands into the target configuration,
//! using the derived routing key to detect duplicates, which are reported
//! and skipped instead of inserted — first seen wins.

use vstd::prelude::*;

use crate::convert::convert_rule;
use crate::convert::spec_convert;
use crate::convert::spec_routing_key;
use crate::model::BeelzebubConfig;
use crate::model::BeelzebubRule;
use crate::model::CommandModel;
use crate::model::spec_unique_keys;
use crate::model::ConfigModel;
use crate::model::RuleModel;
use crate::model::Rules;

verus! {

/// Whether some command in the list already carries the given routing key.
pub open spec fn spec_contains_key(commands: Seq<CommandModel>, key: Seq<char>) -> bool {
    exists|i: int| 0 <= i < commands.len() && commands[i].regex == key
}

/// One merge step: the converted rule is appended unless its routing key is
/// already taken, in which case the list is left as it is.
pub open spec fn spec_merge_step(
    commands: Seq<CommandModel>,
    r: RuleModel,
    provenance: Seq<char>,
) -> Seq<CommandModel> {
    let c = spec_convert(r, Some(provenance));
    if spec_contains_key(commands, c.regex) {
        commands
    } else {
        commands.push(c)
    }
}

/// The command list after merging a whole document of rules, in order.
pub open spec fn spec_merge_commands(
    commands: Seq<CommandModel>,
    rules: Seq<RuleModel>,
    provenance: Seq<char>,
) -> Seq<CommandModel>
    decreases rules.len(),
{
    if rules.len() == 0 {
        commands
    } else {
        spec_merge_step(
            spec_merge_commands(commands, rules.drop_last(), provenance),
            rules.last(),
            provenance,
        )
    }
}

/// The paths of the rules a merge rejects as duplicates, in order.
pub open spec fn spec_merge_duplicates(
    commands: Seq<CommandModel>,
    rules: Seq<RuleModel>,
    provenance: Seq<char>,
) -> Seq<Seq<char>>
    decreases rules.len(),
{
    if rules.len() == 0 {
        Seq::empty()
    } else {
        let prior = spec_merge_commands(commands, rules.drop_last(), provenance);
        let sofar = spec_merge_duplicates(commands, rules.drop_last(), provenance);
        let c = spec_convert(rules.last(), Some(provenance));
        if spec_contains_key(prior, c.regex) {
            sofar.push(rules.last().path)
        } else {
            sofar
        }
    }
}

/// Law: a merge never introduces a duplicate routing key. If no two commands
/// share a key beforehand, none do afterwards — a rule whose key is already
/// present is rejected rather than stored a second time, so no key ever
/// appears twice in the final command list.
pub proof fn lemma_merge_preserves_unique_keys(
    commands: Seq<CommandModel>,
    rules: Seq<RuleModel>,
    provenance: Seq<char>,
)
    requires
        spec_unique_keys(commands),
    ensures
        spec_unique_keys(spec_merge_commands(commands, rules, provenance)),
    decreases rules.len(),
{
    if rules.len() > 0 {
        lemma_merge_preserves_unique_keys(commands, rules.drop_last(), provenance);
        let prior = spec_merge_commands(commands, rules.drop_last(), provenance);
        let c = spec_convert(rules.last(), Some(provenance));
        if !spec_contains_key(prior, c.regex) {
            let merged = prior.push(c);
            assert forall|i: int, j: int| 0 <= i < j < merged.len() implies merged[i].regex
                != merged[j].regex by {
                if j == prior.len() {
                    assert(merged[i] == prior[i]);
                }
            }
        }
    }
}

/// Law: a merge only ever appends — every command already in the list is
/// still there afterwards, unchanged and in place, whatever rules are merged
/// after it. Together with key uniqueness this is first-seen-wins: a later
/// rule for a taken routing key never replaces the stored command.
pub proof fn lemma_merge_append_only(
    commands: Seq<CommandModel>,
    rules: Seq<RuleModel>,
    provenance: Seq<char>,
)
    ensures
        spec_merge_commands(commands, rules, provenance).len() >= commands.len(),
        forall|i: int|
            0 <= i < commands.len() ==> spec_merge_commands(commands, rules, provenance)[i]
                == commands[i],
    decreases rules.len(),
{
    if rules.len() > 0 {
        lemma_merge_append_only(commands, rules.drop_last(), provenance);
    }
}

/// Law: no rule is dropped silently — every merged rule either lands in the
/// command list or is reported as a duplicate, so the two lengths together
/// account for the whole document.
pub proof fn lemma_merge_accounts_for_every_rule(
    commands: Seq<CommandModel>,
    rules: Seq<RuleModel>,
    provenance: Seq<char>,
)
    ensures
        spec_merge_commands(commands, rules, provenance).len() + spec_merge_duplicates(
            commands,
            rules,
            provenance,
        ).len() == commands.len() + rules.len(),
    decreases rules.len(),
{
    if rules.len() > 0 {
        lemma_merge_accounts_for_every_rule(commands, rules.drop_last(), provenance);
    }
}

/// Law: after a merge, the routing key of every rule in the document is
/// present in the command list. Together with key uniqueness this pins the
/// duplicate policy down: a path seen twice — in one document or across two
/// — is stored exactly once.
pub proof fn lemma_merge_includes_every_path(
    commands: Seq<CommandModel>,
    rules: Seq<RuleModel>,
    provenance: Seq<char>,
    idx: int,
)
    requires
        0 <= idx < rules.len(),
    ensures
        spec_contains_key(
            spec_merge_commands(commands, rules, provenance),
            spec_routing_key(rules[idx].path),
        ),
    decreases rules.len(),
{
    let key = spec_routing_key(rules[idx].path);
    let prior = spec_merge_commands(commands, rules.drop_last(), provenance);
    let merged = spec_merge_commands(commands, rules, provenance);
    let c = spec_convert(rules.last(), Some(provenance));
    if idx == rules.len() - 1 {
        if spec_contains_key(prior, c.regex) {
            assert(spec_contains_key(merged, key));
        } else {
            assert(merged[prior.len() as int] == c);
            assert(spec_contains_key(merged, key));
        }
    } else {
        lemma_merge_includes_every_path(commands, rules.drop_last(), provenance, idx);
        let w = choose|w: int| 0 <= w < prior.len() && prior[w].regex == key;
        if !spec_contains_key(prior, c.regex) {
            assert(merged[w] == prior[w]);
        }
        assert(spec_contains_key(merged, key));
    }
}

impl BeelzebubConfig {
    /// The full-path-match pattern stored for a literal path; also the key
    /// the merge engine compares on.
    pub fn path_to_regex(&self, path: &str) -> (r: String)
        ensures
            r@ == spec_routing_key(path@),
    {
        crate::convert::derive_routing_key(path)
    }

    /// Whether this configuration already holds a command for the path,
    /// compared on the derived routing key, not on the raw path.
    pub fn contains_path(&self, path: &str) -> (r: bool)
        ensures
            r == spec_contains_key(self@.commands, spec_routing_key(path@)),
    {
        let key = self.path_to_regex(path);
        let mut i: usize = 0;
        while i < self.commands.len()
            invariant
                0 <= i <= self@.commands.len(),
                key@ == spec_routing_key(path@),
                forall|k: int| 0 <= k < i ==> self@.commands[k].regex != key@,
            decreases self@.commands.len() - i,
        {
            if self.commands[i].regex == key {
                proof {
                    assert(self@.commands[i as int].regex == key@);
                }
                return true;
            }
            i += 1;
        }
        false
    }

    /// Appends the command unless its routing key is already taken; a
    /// duplicate leaves the configuration untouched. Metadata is never
    /// changed, and key uniqueness is preserved either way.
    pub fn insert_command(&mut self, path: &str, cmd: BeelzebubRule) -> (added: bool)
        requires
            cmd@.regex == spec_routing_key(path@),
        ensures
            added == !spec_contains_key(old(self)@.commands, spec_routing_key(path@)),
            added ==> final(self)@ == (ConfigModel {
                commands: old(self)@.commands.push(cmd@),
                ..old(self)@
            }),
            !added ==> final(self)@ == old(self)@,
            old(self).wf() ==> final(self).wf(),
    {
        if self.contains_path(path) {
            return false;
        }
        let ghost before = self@;
        self.commands.push(cmd);
        proof {
            assert(self@.commands =~= before.commands.push(cmd@));
            assert(self@ =~= (ConfigModel { commands: before.commands.push(cmd@), ..before }));
            if spec_unique_keys(before.commands) {
                assert forall|i: int, j: int| 0 <= i < j < self@.commands.len()
                    implies self@.commands[i].regex != self@.commands[j].regex by {
                    if j == before.commands.len() {
                        assert(self@.commands[i] == before.commands[i]);
                    }
                }
            }
        }
        true
    }

    /// Merges one document's rules into the configuration in document order:
    /// each rule is converted (with the document's provenance label as the
    /// fallback name) and appended unless its routing key is already taken.
    /// Returns the paths of the rejected duplicates, in order; the service
    /// metadata is never touched, and key uniqueness is preserved.
    pub fn merge_document(&mut self, rules: Rules, provenance: &str) -> (duplicates: Vec<String>)
        ensures
            final(self)@ == (ConfigModel {
                commands: spec_merge_commands(old(self)@.commands, rules@, provenance@),
                ..old(self)@
            }),
            duplicates.deep_view() == spec_merge_duplicates(
                old(self)@.commands,
                rules@,
                provenance@,
            ),
            old(self).wf() ==> final(self).wf(),
    {
        let ghost start = self@;
        let ghost all = rules@;
        let mut rest = rules.into_vec();
        let mut duplicates: Vec<String> = Vec::new();
        let ghost mut done: Seq<RuleModel> = Seq::empty();
        proof {
            assert(done + rest.deep_view() =~= all);
            assert(spec_merge_commands(start.commands, done, provenance@) =~= start.commands);
            assert(duplicates.deep_view() =~= spec_merge_duplicates(
                start.commands,
                done,
                provenance@,
            ));
        }
        while rest.len() > 0
            invariant
                all == done + rest.deep_view(),
                self@ == (ConfigModel {
                    commands: spec_merge_commands(start.commands, done, provenance@),
                    ..start
                }),
                duplicates.deep_view() == spec_merge_duplicates(start.commands, done, provenance@),
                spec_unique_keys(start.commands) ==> spec_unique_keys(self@.commands),
            decreases rest.deep_view().len(),
        {
            let ghost prior = self@.commands;
            let ghost rdv = rest.deep_view();
            let rule = rest.remove(0);
            let ghost stepped = done.push(rule@);
            proof {
                assert(rdv =~= rest.deep_view().insert(0, rule@));
            }
            let path = rule.path.clone();
            let cmd = convert_rule(rule, Some(String::from_str(provenance)));
            let added = self.insert_command(path.as_str(), cmd);
            if !added {
                duplicates.push(path);
            }
            proof {
                assert(stepped.drop_last() =~= done);
                assert(stepped.last() == rule@);
                assert(done + rest.deep_view().insert(0, rule@) =~= stepped + rest.deep_view());
                assert(self@.commands =~= spec_merge_commands(
                    start.commands,
                    stepped,
                    provenance@,
                ));
                assert(duplicates.deep_view() =~= spec_merge_duplicates(
                    start.commands,
                    stepped,
                    provenance@,
                ));
                done = stepped;
            }
        }
        proof {
            assert(done =~= all);
            assert(self@ =~= (ConfigModel {
                commands: spec_merge_commands(start.commands, all, provenance@),
                ..start
            }));
        }
        duplicates
    }
}

} // verus!
