//! Substitution of named placeholders in path and command templates.
//!
//! A placeholder is a name between braces.  Bindings are applied one after
//! another, each replacing every occurrence of its placeholder in the text
//! that the bindings before it have produced; a placeholder that no binding
//! names stays in the text as it is.

use vstd::prelude::*;
use crate::text::{
    chars_of, extend_chars, lemma_replace_absent, occurs_in, replace_all, replace_chars,
    string_of,
};

verus! {

/// A placeholder name and the value that takes its place.
#[derive(Clone, Debug)]
pub struct Binding {
    pub name: String,
    pub value: String,
}

impl View for Binding {
    type V = (Seq<char>, Seq<char>);

    open spec fn view(&self) -> (Seq<char>, Seq<char>) {
        (self.name@, self.value@)
    }
}

impl Binding {
    /// Binds the placeholder `name` to `value`.
    pub fn new(name: &str, value: &str) -> (binding: Binding)
        ensures
            binding@ == (name@, value@),
    {
        Binding { name: name.to_owned(), value: value.to_owned() }
    }
}

/// What each of a sequence of bindings binds.
pub open spec fn bound(bindings: Seq<Binding>) -> Seq<(Seq<char>, Seq<char>)> {
    bindings.map_values(|b: Binding| b@)
}

/// The placeholder for `name`: the name between braces.
pub open spec fn token(name: Seq<char>) -> Seq<char> {
    seq!['{'] + name + seq!['}']
}

/// `template` after each binding, in order, has replaced its placeholder.
pub open spec fn substituted(template: Seq<char>, bindings: Seq<(Seq<char>, Seq<char>)>) -> Seq<
    char,
>
    decreases bindings.len(),
{
    if bindings.len() == 0 {
        template
    } else {
        substituted(
            replace_all(template, token(bindings[0].0), bindings[0].1),
            bindings.drop_first(),
        )
    }
}

/// The placeholder for `name`.
pub fn token_of(name: &str) -> (tok: Vec<char>)
    ensures
        tok@ == token(name@),
{
    let mut tok: Vec<char> = Vec::new();
    tok.push('{');
    let inner = chars_of(name);
    extend_chars(&mut tok, &inner);
    tok.push('}');
    proof {
        assert(tok@ =~= token(name@));
    }
    tok
}

/// Replaces the placeholders of `template` by the values bound to them.
pub fn substitute(template: &str, bindings: &Vec<Binding>) -> (text: String)
    ensures
        text@ == substituted(template@, bound(bindings@)),
{
    let mut cur = chars_of(template);
    let mut k: usize = 0;
    let ghost all = bound(bindings@);
    proof {
        assert(all.subrange(0, all.len() as int) =~= all);
    }
    while k < bindings.len()
        invariant
            k <= bindings.len(),
            all == bound(bindings@),
            substituted(template@, all) == substituted(
                cur@,
                all.subrange(k as int, all.len() as int),
            ),
        decreases bindings.len() - k,
    {
        let tok = token_of(bindings[k].name.as_str());
        let val = chars_of(bindings[k].value.as_str());
        proof {
            let rest = all.subrange(k as int, all.len() as int);
            assert(rest[0] == bindings@[k as int]@);
            assert(rest.drop_first() =~= all.subrange(k + 1, all.len() as int));
        }
        cur = replace_chars(&cur, &tok, &val);
        k += 1;
    }
    string_of(&cur)
}

/// A template in which none of the bound placeholders occurs is left as it
/// is, so substituting a second time changes nothing either.
pub proof fn lemma_substitute_without_placeholders(
    template: Seq<char>,
    bindings: Seq<(Seq<char>, Seq<char>)>,
)
    requires
        forall|i: int| 0 <= i < bindings.len() ==> !occurs_in(template, token(#[trigger] bindings[i].0)),
    ensures
        substituted(template, bindings) == template,
        substituted(substituted(template, bindings), bindings) == substituted(template, bindings),
    decreases bindings.len(),
{
    if bindings.len() > 0 {
        lemma_replace_absent(template, token(bindings[0].0), bindings[0].1);
        let rest = bindings.drop_first();
        assert forall|i: int| 0 <= i < rest.len() implies !occurs_in(
            template,
            token(#[trigger] rest[i].0),
        ) by {
            assert(rest[i] == bindings[i + 1]);
        }
        lemma_substitute_without_placeholders(template, rest);
    }
}

} // verus!
