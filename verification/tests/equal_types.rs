use future_stream_any::component_type::ComponentType;
use future_stream_any::error::desc;
use future_stream_any::tables::{interface_types_equal, ComponentTypes, InstanceType};
use future_stream_any::transmit_type::{FutureType, StreamType};
use future_stream_any::types::{
    CompoundKind, InterfaceType, ResourceType, TypeResourceTableIndex,
};
use std::sync::Arc;

fn names(names: &[&str]) -> Vec<String> {
    names.iter().map(|n| n.to_string()).collect()
}

fn record(t: &mut ComponentTypes, labels: &[&str], parts: &[InterfaceType]) -> InterfaceType {
    t.add_compound(
        CompoundKind::Record,
        names(labels),
        parts.iter().map(|p| Some(*p)).collect(),
    )
}

#[test]
fn types_of_two_tables() {
    let mut a = ComponentTypes::new(0);
    let mut b = ComponentTypes::new(0);
    b.add_compound(CompoundKind::Enum, names(&["x"]), vec![]);
    let x = record(&mut a, &["p", "q"], &[InterfaceType::U32, InterfaceType::String]);
    let y = record(&mut b, &["p", "q"], &[InterfaceType::U32, InterfaceType::String]);
    let z = record(&mut b, &["p", "r"], &[InterfaceType::U32, InterfaceType::String]);
    let w = record(&mut b, &["p", "q"], &[InterfaceType::U32, InterfaceType::Char]);
    let v = record(&mut b, &["p"], &[InterfaceType::U32]);
    let tuple = b.add_compound(
        CompoundKind::Tuple,
        vec![],
        vec![Some(InterfaceType::U32), Some(InterfaceType::String)],
    );
    let a = InstanceType::new(Arc::new(a), vec![]);
    let b = InstanceType::new(Arc::new(b), vec![]);
    assert_ne!(x, y);
    assert!(interface_types_equal(&a, x, &b, y));
    assert!(interface_types_equal(&b, y, &a, x));
    for other in [z, w, v, tuple, InterfaceType::U32] {
        assert!(!interface_types_equal(&a, x, &b, other));
    }
    let c = InterfaceType::ErrorContext;
    assert!(interface_types_equal(&a, c, &b, c));
    assert!(!interface_types_equal(&a, InterfaceType::S8, &b, InterfaceType::U8));
}

#[test]
fn cases_without_a_type() {
    let mut a = ComponentTypes::new(0);
    let ok = Some(InterfaceType::Bool);
    let x = a.add_compound(CompoundKind::Result, vec![], vec![ok, None]);
    let y = a.add_compound(CompoundKind::Result, vec![], vec![ok, None]);
    let z = a.add_compound(CompoundKind::Result, vec![], vec![None, ok]);
    let v = a.add_compound(CompoundKind::Variant, names(&["a", "b"]), vec![ok, None]);
    let f = a.add_compound(CompoundKind::Flags, names(&["a", "b"]), vec![]);
    let e = a.add_compound(CompoundKind::Enum, names(&["a", "b"]), vec![]);
    let o = a.add_compound(CompoundKind::Option, vec![], vec![ok]);
    let l = a.add_compound(CompoundKind::List, vec![], vec![ok]);
    assert_eq!(a.len(), 8);
    let a = InstanceType::new(Arc::new(a), vec![]);
    assert!(interface_types_equal(&a, x, &a, y));
    for other in [z, v, f, e, o, l] {
        assert!(!interface_types_equal(&a, x, &a, other));
        assert!(interface_types_equal(&a, other, &a, other));
    }
    assert!(!interface_types_equal(&a, f, &a, e));
    assert!(!interface_types_equal(&a, o, &a, l));
}

#[test]
fn resources_by_identity() {
    let r = |i| TypeResourceTableIndex(i);
    let a = InstanceType::new(
        Arc::new(ComponentTypes::new(2)),
        vec![ResourceType(10), ResourceType(20)],
    );
    let b = InstanceType::new(
        Arc::new(ComponentTypes::new(2)),
        vec![ResourceType(20), ResourceType(30)],
    );
    let own = InterfaceType::Own(r(0));
    let borrow = InterfaceType::Borrow(r(0));
    assert!(interface_types_equal(&a, InterfaceType::Own(r(1)), &b, own));
    assert!(!interface_types_equal(&a, own, &b, own));
    assert!(!interface_types_equal(&a, InterfaceType::Own(r(1)), &b, borrow));
    assert!(interface_types_equal(&a, InterfaceType::Borrow(r(1)), &b, borrow));
}

#[test]
fn futures_of_streams() {
    let mut a = ComponentTypes::new(0);
    let s = a.add_stream(Some(InterfaceType::U8));
    let s = a.add_stream_table(s);
    let f = a.add_future(Some(InterfaceType::Stream(s)));
    let x = a.add_future_table(f);
    let s2 = a.add_stream(None);
    let s2 = a.add_stream_table(s2);
    let f2 = a.add_future(Some(InterfaceType::Stream(s2)));
    let y = a.add_future_table(f2);
    let z = a.add_future_table(f);
    let t = a.add_stream(Some(InterfaceType::Stream(s)));
    let a = InstanceType::new(Arc::new(a), vec![]);
    assert!(interface_types_equal(&a, InterfaceType::Future(x), &a, InterfaceType::Future(z)));
    assert!(!interface_types_equal(&a, InterfaceType::Future(x), &a, InterfaceType::Future(y)));
    assert!(!interface_types_equal(&a, InterfaceType::Future(x), &a, InterfaceType::Stream(s)));
    assert!(FutureType::from(f, &a) == FutureType::from(f, &a).clone());
    assert!(FutureType::from(f, &a) != FutureType::from(f2, &a));
    let stream = StreamType::from(t, &a);
    assert!(stream == stream.clone());
    assert!(stream.equivalent_payload_guest(&a, Some(&InterfaceType::Stream(s))));
    assert!(!stream.equivalent_payload_guest(&a, Some(&InterfaceType::Stream(s2))));
    assert!(!stream.equivalent_payload_guest(&a, None));
    assert!(stream.equivalent_payload_host::<u32>().is_err());
}

#[test]
fn unit_is_the_tuple_without_parts() {
    let mut a = ComponentTypes::new(0);
    let unit = a.add_compound(CompoundKind::Tuple, vec![], vec![]);
    let pair = a.add_compound(
        CompoundKind::Tuple,
        vec![],
        vec![Some(InterfaceType::U32), Some(InterfaceType::U32)],
    );
    let a = InstanceType::new(Arc::new(a), vec![]);
    assert!(<()>::typecheck(&unit, &a).is_ok());
    assert!(<()>::typecheck(&pair, &a).is_err());
    assert!(<()>::typecheck(&InterfaceType::Bool, &a).is_err());
    assert!(u32::typecheck(&InterfaceType::U32, &a).is_ok());
    assert!(u32::typecheck(&unit, &a).is_err());
    assert_eq!(desc(&pair), "tuple");
    assert_eq!(desc(&InterfaceType::Float64), "f64");
}
