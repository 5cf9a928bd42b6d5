//! What holds of reading a preset, whatever the preset file.

use crate::assemble::{
    assembled, decodes_to, effect_order_of, effect_order_upto, envelope_at,
    factory_envelope_value, filter_at, lemma_chorus_rests_on_texts, lemma_delay_rests_on_texts,
    lemma_distortion_rests_on_texts, lemma_effect_filter_rests_on_texts, lemma_effect_order_fails,
    lemma_envelope_rests_on_texts, lemma_equalizer_rests_on_texts, lemma_filter_rests_on_texts,
    lemma_lfo_rests_on_texts, lemma_lofi_rests_on_texts, lemma_matrix_item_rests_on_texts,
    lemma_modulator_envelope_rests_on_texts, lemma_noise_rests_on_texts,
    lemma_oscillator_rests_on_texts, lemma_reverb_rests_on_texts, lemma_settings_rests_on_texts,
    lemma_tuning_rests_on_texts, lemma_vibrato_rests_on_texts, matrix_item_at,
    modulator_envelope_at, oscillator_at, settings_at, slot_number, Decoded,
};
use crate::effect::{lemma_effect_type_numbers, EffectType};
use crate::error::DecodeError;
use crate::key::{key_named, EnvelopeSlot, MatrixSlot, OscillatorSlot, PairSlot, ParamKey};
use crate::model::{MatrixItem, PresetView};
use crate::number::{decimal_value, Number};
use crate::param::{raw_text, views, ParamView, TreeView};
use crate::session::{
    i32_at, lemma_stranger_is_left, lemma_stranger_is_unseen, number_at, number_if_at,
    same_texts, switch_at, u32_at, unrecognized,
};
use vstd::prelude::*;

verus! {

/// The effect types in the order in which the synthesizer applies them
/// unless a preset says otherwise.
pub open spec fn natural_effect_order() -> Seq<EffectType> {
    seq![
        EffectType::Distortion,
        EffectType::LoFi,
        EffectType::Filter,
        EffectType::Chorus,
        EffectType::Equalizer,
        EffectType::Delay,
        EffectType::Reverb,
    ]
}

/// Whether every one of the first `count` places of the effect order holds
/// the number of an effect type.
pub open spec fn places_known(slots: Seq<Option<u32>>, count: int) -> bool {
    forall|i: int| 0 <= i < count ==> EffectType::known(#[trigger] slot_number(slots, i))
}

/// Whether no two places of the effect order hold the same number.
pub open spec fn places_differ(slots: Seq<Option<u32>>) -> bool {
    forall|i: int, j: int|
        0 <= i < j < slots.len() ==> #[trigger] slot_number(slots, i) != #[trigger] slot_number(
            slots,
            j,
        )
}

/// An empty list of parameters holds no text under any key, so that every
/// reading of it gives the default.
pub proof fn law_nothing_gives_the_default(key: ParamKey)
    ensures
        raw_text(Seq::<ParamView>::empty(), key.id_text()) is None,
        number_if_at(Seq::<ParamView>::empty(), key) is None,
        forall|default: Number| number_at(Seq::<ParamView>::empty(), key, default) == default,
        forall|default: bool| switch_at(Seq::<ParamView>::empty(), key, default) == default,
        forall|default: u32| u32_at(Seq::<ParamView>::empty(), key, default) == default,
        forall|default: i32| i32_at(Seq::<ParamView>::empty(), key, default) == default,
{
}

/// While the first places of the effect order hold known numbers, they stand
/// for the effect types of those numbers, place by place.
pub proof fn law_known_places_resolve(slots: Seq<Option<u32>>, count: nat)
    requires
        count <= slots.len(),
        places_known(slots, count as int),
    ensures
        effect_order_upto(slots, count) is Ok,
        effect_order_upto(slots, count)->Ok_0.len() == count,
        forall|i: int|
            0 <= i < count ==> (#[trigger] effect_order_upto(slots, count)->Ok_0[i]).discriminant()
                == slot_number(slots, i),
    decreases count,
{
    if count > 0 {
        law_known_places_resolve(slots, (count - 1) as nat);
        let id = slot_number(slots, count - 1);
        assert(EffectType::known(id));
        assert(EffectType::with_number(id).discriminant() == id);
    }
}

/// The first place of the effect order that holds an unknown number fails
/// the whole order, and the failure names that number.
pub proof fn law_first_unknown_place_fails(slots: Seq<Option<u32>>, place: int)
    requires
        0 <= place < slots.len(),
        places_known(slots, place),
        !EffectType::known(slot_number(slots, place)),
    ensures
        effect_order_of(slots) == Err::<Seq<EffectType>, DecodeError>(
            DecodeError::UnknownEffectType(slot_number(slots, place)),
        ),
{
    law_known_places_resolve(slots, place as nat);
    assert(effect_order_upto(slots, (place + 1) as nat) is Err);
    lemma_effect_order_fails(slots, (place + 1) as nat, slots.len());
}

/// An unknown number in any place of the effect order fails the reading of
/// the whole preset, and the failure names an unknown number: the one in the
/// first place that holds one, which the law returns.
pub proof fn law_unknown_effect_type_fails(tree: TreeView, place: int) -> (first: int)
    requires
        0 <= place < tree.fx_order.len(),
        !EffectType::known(slot_number(tree.fx_order, place)),
    ensures
        0 <= first <= place,
        !EffectType::known(slot_number(tree.fx_order, first)),
        assembled(tree) == Err::<PresetView, DecodeError>(
            DecodeError::UnknownEffectType(slot_number(tree.fx_order, first)),
        ),
    decreases place,
{
    if places_known(tree.fx_order, place) {
        law_first_unknown_place_fails(tree.fx_order, place);
        place
    } else {
        let earlier = choose|i: int|
            0 <= i < place && !EffectType::known(#[trigger] slot_number(tree.fx_order, i));
        law_unknown_effect_type_fails(tree, earlier)
    }
}

/// Where every place of the effect order holds a known number, the preset
/// is read, and its effects stand in the order of the numbers. Where no
/// two places hold the same number, each effect type stands in the order
/// once.
pub proof fn law_known_effect_order_is_kept(tree: TreeView)
    requires
        tree.fx_order.len() == 7,
        places_known(tree.fx_order, 7),
    ensures
        assembled(tree) is Ok,
        assembled(tree)->Ok_0.effect_order.len() == 7,
        forall|i: int|
            0 <= i < 7 ==> (#[trigger] assembled(tree)->Ok_0.effect_order[i]).discriminant()
                == slot_number(tree.fx_order, i),
        places_differ(tree.fx_order) ==> assembled(tree)->Ok_0.effect_order.no_duplicates(),
        places_differ(tree.fx_order) ==> forall|effect_type: EffectType|
            assembled(tree)->Ok_0.effect_order.contains(effect_type),
{
    let slots = tree.fx_order;
    let order = effect_order_of(slots)->Ok_0;
    law_known_places_resolve(slots, 7);
    assert(assembled(tree)->Ok_0.effect_order == order);
    if places_differ(slots) {
        assert forall|i: int, j: int| 0 <= i < order.len() && 0 <= j < order.len() && i
            != j implies order[i] != order[j] by {
            if i < j {
                assert(slot_number(slots, i) != slot_number(slots, j));
            } else {
                assert(slot_number(slots, j) != slot_number(slots, i));
            }
            assert(order[i].discriminant() == slot_number(slots, i));
            assert(order[j].discriminant() == slot_number(slots, j));
        }
        assert forall|effect_type: EffectType| order.contains(effect_type) by {
            lemma_seven_places_hold_all(slots, order, effect_type);
        }
    }
}

/// Seven places that hold seven different known numbers hold the number of
/// every effect type.
proof fn lemma_seven_places_hold_all(
    slots: Seq<Option<u32>>,
    order: Seq<EffectType>,
    effect_type: EffectType,
)
    requires
        slots.len() == 7,
        order.len() == 7,
        places_known(slots, 7),
        places_differ(slots),
        forall|i: int| 0 <= i < 7 ==> (#[trigger] order[i]).discriminant() == slot_number(slots, i),
    ensures
        order.contains(effect_type),
{
    let numbers = Seq::new(7, |i: int| slot_number(slots, i) as int);
    let wanted = effect_type.discriminant() as int;
    assert forall|i: int| 0 <= i < 7 implies 0 <= #[trigger] numbers[i] < 7 by {
        lemma_effect_type_numbers(slot_number(slots, i));
    }
    assert forall|i: int, j: int| 0 <= i < 7 && 0 <= j < 7 && i != j implies numbers[i]
        != numbers[j] by {
        if i < j {
            assert(slot_number(slots, i) != slot_number(slots, j));
        } else {
            assert(slot_number(slots, j) != slot_number(slots, i));
        }
    }
    lemma_all_numbers_present(numbers, wanted);
    let at = choose|i: int| 0 <= i < 7 && numbers[i] == wanted;
    assert(order[at].discriminant() == effect_type.discriminant());
    assert(order[at] == effect_type);
}

/// As many different numbers as there are numbers below a bound, all of them
/// below that bound, leave none of those numbers out.
proof fn lemma_all_numbers_present(numbers: Seq<int>, wanted: int)
    requires
        numbers.no_duplicates(),
        forall|i: int| 0 <= i < numbers.len() ==> 0 <= #[trigger] numbers[i] < numbers.len(),
        0 <= wanted < numbers.len(),
    ensures
        numbers.contains(wanted),
{
    let bound = numbers.len() as int;
    let below = vstd::set_lib::set_int_range(0, bound);
    numbers.unique_seq_to_set();
    vstd::set_lib::lemma_int_range(0, bound);
    if !numbers.contains(wanted) {
        let others = below.remove(wanted);
        assert forall|number: int| numbers.to_set().contains(number) implies others.contains(
            number,
        ) by {
            let i = choose|i: int| 0 <= i < numbers.len() && numbers[i] == number;
            assert(0 <= numbers[i] < bound);
        }
        assert(others.len() == bound - 1);
        vstd::set_lib::lemma_len_subset(numbers.to_set(), others);
    }
}

/// Reading a preset file gives the same result every time: two results of
/// reading the same file agree in everything.
pub proof fn law_reading_is_repeatable(
    tree: TreeView,
    first: Result<Decoded, DecodeError>,
    second: Result<Decoded, DecodeError>,
)
    requires
        decodes_to(tree, first),
        decodes_to(tree, second),
    ensures
        first is Ok <==> second is Ok,
        first is Ok ==> first->Ok_0.preset@ == second->Ok_0.preset@,
        first is Ok ==> views(first->Ok_0.unrecognized@) == views(second->Ok_0.unrecognized@),
        first is Err ==> first->Err_0 == second->Err_0,
{
}

/// A preset file without parameters is read whenever its effect order is
/// in order, and gives the synthesizer's own settings.
pub proof fn law_no_parameters_give_factory_settings(tree: TreeView)
    requires
        tree.params.len() == 0,
        tree.fx_order.len() == 7,
    ensures
        assembled(tree) is Ok <==> places_known(tree.fx_order, 7),
        (forall|i: int| 0 <= i < 7 ==> tree.fx_order[i] is None) ==> assembled(tree) is Ok
            && assembled(tree)->Ok_0.effect_order == natural_effect_order(),
        assembled(tree) is Ok ==> ({
            let preset = assembled(tree)->Ok_0;
            &&& preset.name == tree.preset_name
            &&& preset.master_volume_normalized == decimal_value(5, 1)
            &&& preset.polyphony == 8
            &&& preset.envelope == factory_envelope_value(EnvelopeSlot::Main)
            &&& preset.filter.envelope == factory_envelope_value(EnvelopeSlot::Filter)
            &&& preset.mod_envelopes[0].envelope == factory_envelope_value(
                EnvelopeSlot::Modulator1,
            )
            &&& preset.mod_envelopes[1].envelope == factory_envelope_value(
                EnvelopeSlot::Modulator2,
            )
            &&& preset.oscillators[0].enabled
            &&& !preset.oscillators[1].enabled
            &&& !preset.oscillators[2].enabled
            &&& preset.matrix[0] == MatrixItem { source: 7, target: 2, amount: decimal_value(1, 0) }
            &&& forall|i: int|
                1 <= i < 8 ==> #[trigger] preset.matrix[i] == MatrixItem {
                    source: 0,
                    target: 0,
                    amount: decimal_value(0, 0),
                }
        }),
{
    let slots = tree.fx_order;
    if places_known(slots, 7) {
        law_known_places_resolve(slots, 7);
    } else {
        let place = choose|i: int| 0 <= i < 7 && !EffectType::known(
            #[trigger] slot_number(slots, i),
        );
        let first = law_unknown_effect_type_fails(tree, place);
    }
    if forall|i: int| 0 <= i < 7 ==> tree.fx_order[i] is None {
        assert forall|i: int| 0 <= i < 7 implies EffectType::known(
            #[trigger] slot_number(slots, i),
        ) by {
            lemma_effect_type_numbers(slot_number(slots, i));
        }
        law_known_places_resolve(slots, 7);
        let order = effect_order_of(slots)->Ok_0;
        assert forall|i: int| 0 <= i < 7 implies order[i] == natural_effect_order()[i] by {
            assert(order[i].discriminant() == slot_number(slots, i));
        }
        assert(order =~= natural_effect_order());
    }
    if assembled(tree) is Ok {
        reveal(settings_at);
        reveal(envelope_at);
        reveal(filter_at);
        reveal(modulator_envelope_at);
        reveal(oscillator_at);
        reveal(matrix_item_at);
        let params = tree.params;
        assert(params =~= Seq::<ParamView>::empty());
    }
}

/// Two preset files that agree in their structural fields, and hold the same
/// text under every key, stand for the same preset.
pub proof fn law_preset_rests_on_texts(first: TreeView, second: TreeView)
    requires
        second.with_params(first.params) == first,
        same_texts(first.params, second.params),
    ensures
        assembled(first) == assembled(second),
{
    let p = first.params;
    let q = second.params;
    let main = factory_envelope_value(EnvelopeSlot::Main);
    let filter = factory_envelope_value(EnvelopeSlot::Filter);
    let one = factory_envelope_value(EnvelopeSlot::Modulator1);
    let two = factory_envelope_value(EnvelopeSlot::Modulator2);
    lemma_envelope_rests_on_texts(p, q, EnvelopeSlot::Main, main);
    lemma_envelope_rests_on_texts(p, q, EnvelopeSlot::Filter, filter);
    lemma_envelope_rests_on_texts(p, q, EnvelopeSlot::Modulator1, one);
    lemma_envelope_rests_on_texts(p, q, EnvelopeSlot::Modulator2, two);
    lemma_tuning_rests_on_texts(p, q, first.root_key, first.scale);
    lemma_filter_rests_on_texts(p, q, envelope_at(p, EnvelopeSlot::Filter, filter));
    lemma_oscillator_rests_on_texts(p, q, OscillatorSlot::First);
    lemma_oscillator_rests_on_texts(p, q, OscillatorSlot::Second);
    lemma_oscillator_rests_on_texts(p, q, OscillatorSlot::Third);
    lemma_noise_rests_on_texts(p, q);
    lemma_lfo_rests_on_texts(p, q, PairSlot::First);
    lemma_lfo_rests_on_texts(p, q, PairSlot::Second);
    lemma_modulator_envelope_rests_on_texts(
        p,
        q,
        PairSlot::First,
        envelope_at(p, EnvelopeSlot::Modulator1, one),
    );
    lemma_modulator_envelope_rests_on_texts(
        p,
        q,
        PairSlot::Second,
        envelope_at(p, EnvelopeSlot::Modulator2, two),
    );
    lemma_vibrato_rests_on_texts(p, q);
    lemma_matrix_item_rests_on_texts(p, q, MatrixSlot::First);
    lemma_matrix_item_rests_on_texts(p, q, MatrixSlot::Second);
    lemma_matrix_item_rests_on_texts(p, q, MatrixSlot::Third);
    lemma_matrix_item_rests_on_texts(p, q, MatrixSlot::Fourth);
    lemma_matrix_item_rests_on_texts(p, q, MatrixSlot::Fifth);
    lemma_matrix_item_rests_on_texts(p, q, MatrixSlot::Sixth);
    lemma_matrix_item_rests_on_texts(p, q, MatrixSlot::Seventh);
    lemma_matrix_item_rests_on_texts(p, q, MatrixSlot::Eighth);
    lemma_chorus_rests_on_texts(p, q);
    lemma_delay_rests_on_texts(p, q);
    lemma_distortion_rests_on_texts(p, q);
    lemma_equalizer_rests_on_texts(p, q);
    lemma_effect_filter_rests_on_texts(p, q);
    lemma_lofi_rests_on_texts(p, q);
    lemma_reverb_rests_on_texts(p, q);
    lemma_settings_rests_on_texts(p, q);
}

/// One more parameter under an identifier that the reader does not know
/// changes nothing in the preset that is read. It only joins the parameters
/// that are left over, at the place that the law returns.
pub proof fn law_unknown_parameter_changes_nothing(
    tree: TreeView,
    at: int,
    stranger: ParamView,
) -> (place: int)
    requires
        0 <= at <= tree.params.len(),
        key_named(stranger.id) is None,
    ensures
        assembled(tree.with_params(tree.params.insert(at, stranger))) == assembled(tree),
        0 <= place <= unrecognized(tree.params).len(),
        unrecognized(tree.params.insert(at, stranger)) == unrecognized(tree.params).insert(
            place,
            stranger,
        ),
{
    let longer = tree.params.insert(at, stranger);
    assert forall|key: ParamKey| #[trigger]
        raw_text(tree.params, key.id_text()) == raw_text(longer, key.id_text()) by {
        lemma_stranger_is_unseen(tree.params, at, stranger, key);
    }
    law_preset_rests_on_texts(tree, tree.with_params(longer));
    lemma_stranger_is_left(tree.params, Set::full(), at, stranger)
}

} // verus!
