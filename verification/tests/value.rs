use wren_bridge::context::{Foreign, Location, Native};
use wren_bridge::handle::Handle;
use wren_bridge::value::{
    elements_to_read, number_value, scratch_slot, text_source, truth_value, Num, SetArgs,
    SetValue, Slot, TextSource, WrenType, NAN_BITS, WREN_TYPE_BOOL, WREN_TYPE_FOREIGN,
    WREN_TYPE_LIST, WREN_TYPE_MAP, WREN_TYPE_NULL, WREN_TYPE_NUM, WREN_TYPE_STRING,
};

fn slot_sizes_in<L: Location>() {
    assert_eq!(<&Num as SetArgs<L>>::total_required_slots(), 1);
    assert_eq!(<(&Num, &Num) as SetArgs<L>>::total_required_slots(), 2);
    assert_eq!(
        <(&Vec<Vec<Num>>, &Num) as SetArgs<L>>::total_required_slots(),
        3
    );
    assert_eq!(
        <(&Num, &Vec<Vec<Num>>) as SetArgs<L>>::total_required_slots(),
        4
    );
    assert_eq!(<(&Num, &Num, &Num) as SetArgs<L>>::total_required_slots(), 3);
    assert_eq!(
        <(&Num, &Num, &Num, &Num) as SetArgs<L>>::total_required_slots(),
        4
    );
}

#[test]
fn test_slot_size() {
    slot_sizes_in::<Foreign>();
    slot_sizes_in::<Native>();
}

// What the machine leaves in the slot for each of the calls, and the truth
// value read from it: everything is true but null and false.
#[test]
fn test_bool() {
    // False cases
    // Test.returnNull()
    assert_eq!(truth_value(WrenType::Null, false), false);
    // Test.returnFalse()
    assert_eq!(truth_value(WrenType::Bool, false), false);
    // Test.returnValue(false)
    assert_eq!(truth_value(WrenType::Bool, false), false);
    // Test.returnNegate(true)
    assert_eq!(truth_value(WrenType::Bool, false), false);
    // Test.returnNegate("")
    assert_eq!(truth_value(WrenType::Bool, false), false);

    // True cases
    // Test.returnTrue
    assert_eq!(truth_value(WrenType::Bool, true), true);
    // Test.returnTrue()
    assert_eq!(truth_value(WrenType::Bool, true), true);
    // Test.returnValue(true)
    assert_eq!(truth_value(WrenType::Bool, true), true);
    // Test.returnNegate(false)
    assert_eq!(truth_value(WrenType::Bool, true), true);
    // Test.returnValue("")
    assert_eq!(truth_value(WrenType::String, false), true);
    // Test.returnValue("Test")
    assert_eq!(truth_value(WrenType::String, false), true);
    // Test.returnValue(Test)
    assert_eq!(truth_value(WrenType::Unknown, false), true);
    // Test.returnValue(vec![1.0])
    assert_eq!(truth_value(WrenType::List, false), true);
    // Test.returnValue(1.0)
    assert_eq!(truth_value(WrenType::Num, false), true);
}

#[test]
fn truth_value_of_every_type() {
    assert_eq!(truth_value(WrenType::Null, true), false);
    assert_eq!(truth_value(WrenType::Num, true), true);
    assert_eq!(truth_value(WrenType::Foreign, false), true);
    assert_eq!(truth_value(WrenType::Mapping, false), true);
    assert_eq!(truth_value(WrenType::Unknown, true), true);
}

#[test]
fn type_codes_are_read_as_the_machine_numbers_them() {
    assert_eq!(WrenType::from(0), WrenType::Bool);
    assert_eq!(WrenType::from(1), WrenType::Num);
    assert_eq!(WrenType::from(2), WrenType::Foreign);
    assert_eq!(WrenType::from(3), WrenType::List);
    assert_eq!(WrenType::from(4), WrenType::Mapping);
    assert_eq!(WrenType::from(5), WrenType::Null);
    assert_eq!(WrenType::from(6), WrenType::String);
    assert_eq!(WrenType::from(7), WrenType::Unknown);
    assert_eq!(WrenType::from(8), WrenType::Unknown);
    assert_eq!(WrenType::from(u32::MAX), WrenType::Unknown);
}

#[test]
fn type_code_constants() {
    assert_eq!(WrenType::from(WREN_TYPE_BOOL), WrenType::Bool);
    assert_eq!(WrenType::from(WREN_TYPE_NUM), WrenType::Num);
    assert_eq!(WrenType::from(WREN_TYPE_FOREIGN), WrenType::Foreign);
    assert_eq!(WrenType::from(WREN_TYPE_LIST), WrenType::List);
    assert_eq!(WrenType::from(WREN_TYPE_MAP), WrenType::Mapping);
    assert_eq!(WrenType::from(WREN_TYPE_NULL), WrenType::Null);
    assert_eq!(WrenType::from(WREN_TYPE_STRING), WrenType::String);
}

#[test]
fn text_of_null_and_booleans_is_fixed() {
    assert_eq!(text_source::<Native>(WrenType::Null, false), TextSource::Null);
    assert_eq!(text_source::<Native>(WrenType::Bool, false), TextSource::False);
    assert_eq!(text_source::<Native>(WrenType::Bool, true), TextSource::True);
    assert_eq!(TextSource::Null.text(), Some("null"));
    assert_eq!(TextSource::False.text(), Some("false"));
    assert_eq!(TextSource::True.text(), Some("true"));
    assert_eq!(text_source::<Foreign>(WrenType::Null, true), TextSource::Null);
    assert_eq!(text_source::<Foreign>(WrenType::Bool, false), TextSource::False);
    assert_eq!(text_source::<Foreign>(WrenType::Bool, true), TextSource::True);
}

#[test]
fn text_of_a_string_is_its_bytes() {
    assert_eq!(text_source::<Native>(WrenType::String, false), TextSource::Bytes);
    assert_eq!(text_source::<Foreign>(WrenType::String, true), TextSource::Bytes);
    assert_eq!(TextSource::Bytes.text(), None);
}

#[test]
fn text_of_an_object_takes_a_call_where_one_can_be_made() {
    for ty in [
        WrenType::Num,
        WrenType::Foreign,
        WrenType::List,
        WrenType::Mapping,
        WrenType::Unknown,
    ] {
        assert_eq!(text_source::<Native>(ty, false), TextSource::ToString);
        assert_eq!(text_source::<Foreign>(ty, false), TextSource::Handle);
    }
    assert_eq!(TextSource::ToString.text(), None);
    assert_eq!(TextSource::Handle.text(), None);
}

#[test]
fn locations_say_whether_the_machine_may_be_entered() {
    assert!(Native::may_enter_machine());
    assert!(!Foreign::may_enter_machine());
}

#[test]
fn scratch_slot_of_the_first_slot_is_the_next_and_is_saved() {
    let scratch = scratch_slot(0);
    assert_eq!(scratch.item_slot, 1);
    assert!(scratch.save);
}

#[test]
fn scratch_slot_of_a_later_slot_is_the_one_before() {
    let scratch = scratch_slot(1);
    assert_eq!(scratch.item_slot, 0);
    assert!(!scratch.save);
    let scratch = scratch_slot(7);
    assert_eq!(scratch.item_slot, 6);
    assert!(!scratch.save);
    let scratch = scratch_slot(Slot::MAX);
    assert_eq!(scratch.item_slot, Slot::MAX - 1);
    assert!(!scratch.save);
}

#[test]
fn scalars_take_one_slot() {
    assert_eq!(<() as SetValue<Native>>::required_slots(), 1);
    assert_eq!(<bool as SetValue<Native>>::required_slots(), 1);
    assert_eq!(<Num as SetValue<Native>>::required_slots(), 1);
    assert_eq!(<String as SetValue<Native>>::required_slots(), 1);
    assert_eq!(<&str as SetValue<Foreign>>::required_slots(), 1);
    assert_eq!(<Handle as SetValue<Foreign>>::required_slots(), 1);
    assert_eq!(<&bool as SetValue<Foreign>>::required_slots(), 1);
}

#[test]
fn lists_take_one_slot_more_than_their_elements() {
    assert_eq!(<Vec<bool> as SetValue<Native>>::required_slots(), 2);
    assert_eq!(<Vec<Vec<String>> as SetValue<Native>>::required_slots(), 3);
    assert_eq!(<Vec<Vec<Vec<Num>>> as SetValue<Foreign>>::required_slots(), 4);
    assert_eq!(<&Vec<&Vec<Num>> as SetValue<Foreign>>::required_slots(), 3);
}

#[test]
fn argument_counts() {
    assert_eq!(<() as SetArgs<Native>>::count(), 0);
    assert_eq!(<&Num as SetArgs<Native>>::count(), 1);
    assert_eq!(<(&Num, &bool) as SetArgs<Native>>::count(), 2);
    assert_eq!(<(&Num, &bool, &String) as SetArgs<Native>>::count(), 3);
    assert_eq!(<(&Num, &bool, &String, &Num) as SetArgs<Native>>::count(), 4);
    assert_eq!(<(&Num, &bool, &String, &Num, &Num) as SetArgs<Native>>::count(), 5);
    assert_eq!(
        <(&Num, &bool, &String, &Num, &Num, &Num) as SetArgs<Native>>::count(),
        6
    );
    assert_eq!(
        <(&Num, &bool, &String, &Num, &Num, &Num, &Num) as SetArgs<Foreign>>::count(),
        7
    );
}

#[test]
fn an_empty_stack_still_takes_a_slot() {
    assert_eq!(<() as SetArgs<Native>>::total_required_slots(), 1);
    assert_eq!(<() as SetArgs<Foreign>>::total_required_slots(), 1);
}

#[test]
fn a_stack_takes_the_deepest_of_its_arguments() {
    assert_eq!(<&Vec<Vec<Num>> as SetArgs<Native>>::total_required_slots(), 3);
    assert_eq!(
        <(&Vec<Vec<Vec<Num>>>, &Num, &Num) as SetArgs<Native>>::total_required_slots(),
        4
    );
    assert_eq!(
        <(&Num, &Num, &Num, &Num, &Num) as SetArgs<Native>>::total_required_slots(),
        5
    );
    assert_eq!(
        <(&Num, &Num, &Num, &Num, &Num, &Num) as SetArgs<Native>>::total_required_slots(),
        6
    );
    assert_eq!(
        <(&Num, &Num, &Num, &Num, &Num, &Num, &Vec<Num>) as SetArgs<Native>>::total_required_slots(),
        8
    );
    assert_eq!(
        <(&Vec<Vec<Vec<Vec<Vec<Vec<Vec<Vec<Num>>>>>>>>, &Num, &Num, &Num, &Num, &Num, &Num)
            as SetArgs<Foreign>>::total_required_slots(),
        9
    );
}

#[test]
fn a_slot_without_a_number_reads_as_not_a_number() {
    let seven = Num::from_bits(7.0f64.to_bits());
    assert_eq!(number_value(WrenType::Num, seven), seven);
    assert_eq!(f64::from_bits(number_value(WrenType::Num, seven).to_bits()), 7.0);
    for ty in [
        WrenType::Bool,
        WrenType::Foreign,
        WrenType::List,
        WrenType::Mapping,
        WrenType::Null,
        WrenType::String,
        WrenType::Unknown,
    ] {
        assert_eq!(number_value(ty, seven).bits, NAN_BITS);
        assert!(f64::from_bits(number_value(ty, seven).to_bits()).is_nan());
    }
    assert_eq!(NAN_BITS, f64::NAN.to_bits());
}

#[test]
fn only_a_list_has_elements_to_read() {
    assert_eq!(elements_to_read(WrenType::List, 3), 3);
    assert_eq!(elements_to_read(WrenType::List, 0), 0);
    assert_eq!(elements_to_read(WrenType::List, -1), 0);
    assert_eq!(elements_to_read(WrenType::List, Slot::MAX), Slot::MAX);
    assert_eq!(elements_to_read(WrenType::String, 3), 0);
    assert_eq!(elements_to_read(WrenType::Null, 3), 0);
    assert_eq!(elements_to_read(WrenType::Mapping, 3), 0);
    assert_eq!(elements_to_read(WrenType::Unknown, 3), 0);
}

#[test]
fn num_keeps_its_bits() {
    let one = Num::from_bits(1.0f64.to_bits());
    assert_eq!(f64::from_bits(one.to_bits()), 1.0);
    assert_eq!(Num::from_bits(7).bits, 7);
}
