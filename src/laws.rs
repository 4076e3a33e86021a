use vstd::prelude::*;
use eframe::egui::Key;
use crate::catalog::{canonical, next_n, next_of, previous_n, previous_of, Classes, CLASS_COUNT};
use crate::input::class_for_key;
use crate::palette::base_color_of;

verus! {

/// The list of all categories has `CLASS_COUNT` entries and holds every
/// category exactly once.
pub proof fn lemma_list_each_once(c: Classes)
    ensures
        canonical().len() == CLASS_COUNT,
        canonical().no_duplicates(),
        canonical().contains(c),
        canonical()[c.code_spec() as int] == c,
{
    assert(canonical()[c.code_spec() as int] == c);
}

/// Decoding the code of a category gives that category back.
pub proof fn lemma_code_then_class(c: Classes)
    ensures
        c.code_spec() < CLASS_COUNT,
        canonical()[c.code_spec() as int] == c,
{
}

/// Encoding the category of a valid code gives that code back.
pub proof fn lemma_class_then_code(k: nat)
    requires
        k < CLASS_COUNT,
    ensures
        canonical()[k as int].code_spec() == k,
{
}

/// Stepping back and then forward, or forward and then back, returns to
/// the same category.
pub proof fn lemma_next_previous_inverse(c: Classes)
    ensures
        next_of(previous_of(c)) == c,
        previous_of(next_of(c)) == c,
{
}

/// `CLASS_COUNT` steps in either direction go round the whole cycle.
pub proof fn lemma_full_cycle(c: Classes)
    ensures
        next_n(c, CLASS_COUNT as nat) == c,
        previous_n(c, CLASS_COUNT as nat) == c,
{
    reveal_with_fuel(next_n, 5);
    reveal_with_fuel(previous_n, 5);
}

/// Exactly the digit keys one to four select a category, each a different
/// one, in canonical order; every other key selects none.
pub proof fn lemma_hotkeys(k1: Key, k2: Key)
    ensures
        class_for_key(k1) is Some <==> (k1 == Key::Num1 || k1 == Key::Num2 || k1 == Key::Num3
            || k1 == Key::Num4),
        class_for_key(Key::Num1) == Some(canonical()[0]),
        class_for_key(Key::Num2) == Some(canonical()[1]),
        class_for_key(Key::Num3) == Some(canonical()[2]),
        class_for_key(Key::Num4) == Some(canonical()[3]),
        class_for_key(k1) is Some && class_for_key(k1) == class_for_key(k2) ==> k1 == k2,
{
}

/// Different categories are highlighted in different colours.
pub proof fn lemma_colors_distinct(c1: Classes, c2: Classes)
    ensures
        c1 != c2 ==> base_color_of(c1) != base_color_of(c2),
{
}

} // verus!
