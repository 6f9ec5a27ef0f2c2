use std::any::{Any, TypeId};
use type_info::{
    AnyMut, AnyRef, Data, DataEnum, DataStruct, DynamicTypeInfo, Field, FieldId, Fields,
    FieldsNamed, FieldsUnnamed, TryTypeInfo, Type, TypeInfo, Variant,
};

#[derive(Debug, PartialEq)]
struct Point {
    x: i32,
    y: i32,
}

impl TypeInfo for Point {
    const TYPE: Type = Type {
        id: TypeId::of::<Point>(),
        module: "protocol",
        ident: "Point",
        data: Data::Struct(DataStruct {
            fields: Fields::Named(FieldsNamed {
                named: &[
                    Field {
                        id: FieldId::Named("x"),
                        ident: Some("x"),
                        ty: <i32 as TryTypeInfo>::TRY_TYPE,
                    },
                    Field {
                        id: FieldId::Named("y"),
                        ident: Some("y"),
                        ty: <i32 as TryTypeInfo>::TRY_TYPE,
                    },
                ],
            }),
        }),
    };

    fn field<A: Any>(&self, id: FieldId) -> Option<&A> {
        self.field_any(id)?.0.downcast_ref::<A>()
    }

    fn field_mut<A: Any>(&mut self, id: FieldId) -> Option<&mut A> {
        self.field_any_mut(id)?.0.downcast_mut::<A>()
    }
}

impl DynamicTypeInfo for Point {
    fn type_ref(&self) -> &'static Type {
        &<Self as TypeInfo>::TYPE
    }

    fn field_any(&self, id: FieldId) -> Option<AnyRef<'_>> {
        match self.type_ref().resolve(self.variant(), id) {
            Some(0) => Some(AnyRef(&self.x)),
            Some(1) => Some(AnyRef(&self.y)),
            _ => None,
        }
    }

    fn field_any_mut(&mut self, id: FieldId) -> Option<AnyMut<'_>> {
        match self.type_ref().resolve(self.variant(), id) {
            Some(0) => Some(AnyMut(&mut self.x)),
            Some(1) => Some(AnyMut(&mut self.y)),
            _ => None,
        }
    }
}

impl TryTypeInfo for Point {
    const TRY_TYPE: Option<&'static Type> = Some(&<Point as TypeInfo>::TYPE);
}

#[derive(Debug, PartialEq)]
struct Unit;

impl TypeInfo for Unit {
    const TYPE: Type = Type {
        id: TypeId::of::<Unit>(),
        module: "protocol",
        ident: "Unit",
        data: Data::Struct(DataStruct { fields: Fields::Unit }),
    };
}

impl DynamicTypeInfo for Unit {
    fn type_ref(&self) -> &'static Type {
        &<Self as TypeInfo>::TYPE
    }
}

enum Signal {
    Off,
    Level(i32),
    Named { level: i32, label: String },
    Other { label: i32 },
}

impl TypeInfo for Signal {
    const TYPE: Type = Type {
        id: TypeId::of::<Signal>(),
        module: "protocol",
        ident: "Signal",
        data: Data::Enum(DataEnum {
            variants: &[
                Variant { ident: "Off", fields: Fields::Unit },
                Variant {
                    ident: "Level",
                    fields: Fields::Unnamed(FieldsUnnamed {
                        unnamed: &[Field { id: FieldId::Unnamed(0), ident: None, ty: None }],
                    }),
                },
                Variant {
                    ident: "Named",
                    fields: Fields::Named(FieldsNamed {
                        named: &[
                            Field { id: FieldId::Named("level"), ident: Some("level"), ty: None },
                            Field { id: FieldId::Named("label"), ident: Some("label"), ty: None },
                        ],
                    }),
                },
                Variant {
                    ident: "Other",
                    fields: Fields::Named(FieldsNamed {
                        named: &[Field {
                            id: FieldId::Named("label"),
                            ident: Some("label"),
                            ty: None,
                        }],
                    }),
                },
            ],
        }),
    };

    fn field<A: Any>(&self, id: FieldId) -> Option<&A> {
        self.field_any(id)?.0.downcast_ref::<A>()
    }

    fn field_mut<A: Any>(&mut self, id: FieldId) -> Option<&mut A> {
        self.field_any_mut(id)?.0.downcast_mut::<A>()
    }
}

impl DynamicTypeInfo for Signal {
    fn type_ref(&self) -> &'static Type {
        &<Self as TypeInfo>::TYPE
    }

    fn variant(&self) -> Option<&str> {
        match *self {
            Signal::Off => Some("Off"),
            Signal::Level(..) => Some("Level"),
            Signal::Named { .. } => Some("Named"),
            Signal::Other { .. } => Some("Other"),
        }
    }

    fn field_any(&self, id: FieldId) -> Option<AnyRef<'_>> {
        let slot = self.type_ref().resolve(self.variant(), id)?;
        match (self, slot) {
            (Signal::Level(level), 0) => Some(AnyRef(level)),
            (Signal::Named { level, .. }, 0) => Some(AnyRef(level)),
            (Signal::Named { label, .. }, 1) => Some(AnyRef(label)),
            (Signal::Other { label }, 0) => Some(AnyRef(label)),
            _ => None,
        }
    }

    fn field_any_mut(&mut self, id: FieldId) -> Option<AnyMut<'_>> {
        let slot = self.type_ref().resolve(self.variant(), id)?;
        match (self, slot) {
            (Signal::Level(level), 0) => Some(AnyMut(level)),
            (Signal::Named { level, .. }, 0) => Some(AnyMut(level)),
            (Signal::Named { label, .. }, 1) => Some(AnyMut(label)),
            (Signal::Other { label }, 0) => Some(AnyMut(label)),
            _ => None,
        }
    }
}

struct Segment {
    from: Point,
    to: Point,
    label: String,
}

impl TypeInfo for Segment {
    const TYPE: Type = Type {
        id: TypeId::of::<Segment>(),
        module: "protocol",
        ident: "Segment",
        data: Data::Struct(DataStruct {
            fields: Fields::Named(FieldsNamed {
                named: &[
                    Field {
                        id: FieldId::Named("from"),
                        ident: Some("from"),
                        ty: <Point as TryTypeInfo>::TRY_TYPE,
                    },
                    Field {
                        id: FieldId::Named("to"),
                        ident: Some("to"),
                        ty: <Point as TryTypeInfo>::TRY_TYPE,
                    },
                    Field {
                        id: FieldId::Named("label"),
                        ident: Some("label"),
                        ty: <String as TryTypeInfo>::TRY_TYPE,
                    },
                ],
            }),
        }),
    };

    fn field<A: Any>(&self, id: FieldId) -> Option<&A> {
        self.field_any(id)?.0.downcast_ref::<A>()
    }
}

impl DynamicTypeInfo for Segment {
    fn type_ref(&self) -> &'static Type {
        &<Self as TypeInfo>::TYPE
    }

    fn field_any(&self, id: FieldId) -> Option<AnyRef<'_>> {
        match self.type_ref().resolve(self.variant(), id) {
            Some(0) => Some(AnyRef(&self.from)),
            Some(1) => Some(AnyRef(&self.to)),
            Some(2) => Some(AnyRef(&self.label)),
            _ => None,
        }
    }
}

#[derive(Debug, PartialEq)]
enum Flag {
    Up,
    Down,
}

impl TypeInfo for Flag {
    const TYPE: Type = Type {
        id: TypeId::of::<Flag>(),
        module: "protocol",
        ident: "Flag",
        data: Data::Enum(DataEnum {
            variants: &[
                Variant { ident: "Up", fields: Fields::Unit },
                Variant { ident: "Down", fields: Fields::Unit },
            ],
        }),
    };
}

impl DynamicTypeInfo for Flag {
    fn type_ref(&self) -> &'static Type {
        &<Self as TypeInfo>::TYPE
    }

    fn variant(&self) -> Option<&str> {
        match *self {
            Flag::Up => Some("Up"),
            Flag::Down => Some("Down"),
        }
    }
}

#[test]
fn an_enum_without_fields_hands_out_nothing() {
    let mut flag = Flag::Down;
    assert_eq!(flag.variant(), Some("Down"));
    assert_eq!(Flag::Up.variant(), Some("Up"));
    assert_eq!(Flag::TYPE.variants().len(), 2);
    assert!(Flag::TYPE.fields().is_empty());
    assert_eq!(flag.field::<Flag>(FieldId::Unnamed(0)), None);
    assert_eq!(flag.field::<i32>(FieldId::Named("Down")), None);
    assert_eq!(flag.field_mut::<i32>(FieldId::Unnamed(0)), None);
    assert!(flag.field_any(FieldId::Unnamed(0)).is_none());
    assert!(flag.field_any_mut(FieldId::Named("Up")).is_none());
    assert_eq!(Flag::TYPE.resolve(flag.variant(), FieldId::Unnamed(0)), None);
}

#[test]
fn point_type_information() {
    assert_eq!(Point::TYPE.ident, "Point");
    assert_eq!(Point::TYPE.module, "protocol");
    assert_eq!(Point::TYPE.id, TypeId::of::<Point>());
    assert_eq!(Point::TYPE.fields().len(), 2);
    let x = Point::TYPE.fields().iter().find(|field| field.id == FieldId::Named("x")).unwrap();
    assert_eq!(x.ident, Some("x"));
    let idents: Vec<&str> = Point::TYPE.fields().iter().map(|f| f.ident.unwrap()).collect();
    assert_eq!(idents, vec!["x", "y"]);
}

#[test]
fn point_field_access() {
    let point = Point { x: 1, y: 2 };
    assert_eq!(point.field::<i32>(FieldId::Named("x")), Some(&1));
    assert_eq!(point.field::<i32>(FieldId::Named("y")), Some(&2));
    assert_eq!(point.field::<i32>(FieldId::Named("z")), None);
    assert_eq!(point.field::<f64>(FieldId::Named("x")), None);
    assert_eq!(point.field::<u32>(FieldId::Named("x")), None);
    assert_eq!(point.field::<i32>(FieldId::Unnamed(0)), None);
}

#[test]
fn every_declared_field_is_reached_by_its_own_identifier() {
    let point = Point { x: 10, y: 20 };
    let values = [10, 20];
    for (slot, field) in Point::TYPE.fields().iter().enumerate() {
        assert_eq!(Point::TYPE.resolve(None, field.id), Some(slot));
        assert_eq!(point.field::<i32>(field.id), Some(&values[slot]));
    }
}

#[test]
fn a_write_through_field_mut_is_read_by_field() {
    let mut point = Point { x: 1, y: 2 };
    *point.field_mut::<i32>(FieldId::Named("y")).unwrap() = 7;
    assert_eq!(point.field::<i32>(FieldId::Named("y")), Some(&7));
    assert_eq!(point.field::<i32>(FieldId::Named("x")), Some(&1));
    assert_eq!(point.y, 7);
    assert_eq!(point.x, 1);
    assert_eq!(point.field_mut::<i64>(FieldId::Named("y")), None);
    assert_eq!(point.field_mut::<i32>(FieldId::Named("w")), None);
}

#[test]
fn a_write_through_field_any_mut_is_read_by_field_any() {
    let mut point = Point { x: 1, y: 2 };
    *point.field_any_mut(FieldId::Named("x")).unwrap().0.downcast_mut::<i32>().unwrap() = -3;
    let handle = point.field_any(FieldId::Named("x")).unwrap();
    assert_eq!(handle.0.downcast_ref::<i32>(), Some(&-3));
    assert_eq!(handle.0.downcast_ref::<u8>(), None);
    assert_eq!(point.field::<i32>(FieldId::Named("x")), Some(&-3));
    assert!(point.field_any(FieldId::Named("z")).is_none());
    assert!(point.field_any_mut(FieldId::Unnamed(0)).is_none());
}

#[test]
fn a_unit_struct_has_no_fields() {
    let mut unit = Unit;
    assert_eq!(Unit::TYPE.data, Data::Struct(DataStruct { fields: Fields::Unit }));
    assert!(Unit::TYPE.fields().is_empty());
    assert_eq!(unit.field::<i32>(FieldId::Unnamed(0)), None);
    assert_eq!(unit.field::<()>(FieldId::Unnamed(0)), None);
    assert_eq!(unit.field::<String>(FieldId::Named("")), None);
    assert_eq!(unit.field_mut::<i32>(FieldId::Unnamed(0)), None);
    assert_eq!(unit.field_mut::<Unit>(FieldId::Named("self")), None);
    assert!(unit.field_any(FieldId::Unnamed(0)).is_none());
    assert!(unit.field_any_mut(FieldId::Named("x")).is_none());
    assert_eq!(unit.variant(), None);
    assert_eq!(Unit::TYPE.resolve(unit.variant(), FieldId::Unnamed(0)), None);
}

#[test]
fn variant_names_the_inhabited_variant() {
    assert_eq!(Signal::Off.variant(), Some("Off"));
    assert_eq!(Signal::Level(3).variant(), Some("Level"));
    assert_eq!(Signal::Named { level: 1, label: String::new() }.variant(), Some("Named"));
    assert_eq!(Signal::Other { label: 1 }.variant(), Some("Other"));
    assert_eq!(Point { x: 0, y: 0 }.variant(), None);
    let declared: Vec<&str> = Signal::TYPE.variants().iter().map(|v| v.ident).collect();
    assert_eq!(declared, vec!["Off", "Level", "Named", "Other"]);
}

#[test]
fn fields_of_other_variants_are_not_reached() {
    let level = Signal::Level(3);
    assert_eq!(level.field::<i32>(FieldId::Unnamed(0)), Some(&3));
    assert_eq!(level.field::<i32>(FieldId::Named("level")), None);
    assert_eq!(level.field::<String>(FieldId::Named("label")), None);
    assert!(level.field_any(FieldId::Named("level")).is_none());

    let named = Signal::Named { level: 5, label: "five".to_owned() };
    assert_eq!(named.field::<i32>(FieldId::Named("level")), Some(&5));
    assert_eq!(named.field::<String>(FieldId::Named("label")), Some(&"five".to_owned()));
    assert_eq!(named.field::<i32>(FieldId::Unnamed(0)), None);
    assert!(named.field_any(FieldId::Unnamed(0)).is_none());

    let off = Signal::Off;
    assert_eq!(off.field::<i32>(FieldId::Unnamed(0)), None);
    assert_eq!(off.field::<i32>(FieldId::Named("level")), None);
    assert!(off.field_any(FieldId::Named("label")).is_none());
}

#[test]
fn an_identifier_shared_by_two_variants_reaches_the_inhabited_one() {
    let named = Signal::Named { level: 5, label: "five".to_owned() };
    let other = Signal::Other { label: 9 };
    assert_eq!(named.field::<String>(FieldId::Named("label")), Some(&"five".to_owned()));
    assert_eq!(named.field::<i32>(FieldId::Named("label")), None);
    assert_eq!(other.field::<i32>(FieldId::Named("label")), Some(&9));
    assert_eq!(other.field::<String>(FieldId::Named("label")), None);
    assert_eq!(other.field::<i32>(FieldId::Named("level")), None);
}

#[test]
fn enum_fields_are_written_in_place() {
    let mut signal = Signal::Named { level: 5, label: "five".to_owned() };
    *signal.field_mut::<i32>(FieldId::Named("level")).unwrap() = 6;
    signal.field_mut::<String>(FieldId::Named("label")).unwrap().push_str("+1");
    assert_eq!(signal.field::<i32>(FieldId::Named("level")), Some(&6));
    assert_eq!(signal.field::<String>(FieldId::Named("label")), Some(&"five+1".to_owned()));
    assert_eq!(signal.variant(), Some("Named"));
    assert!(signal.field_mut::<i32>(FieldId::Unnamed(0)).is_none());
}

#[test]
fn nested_type_information() {
    let fields = Segment::TYPE.fields();
    assert_eq!(fields.len(), 3);
    assert_eq!(fields[0].ty.map(|ty| ty.ident), Some("Point"));
    assert_eq!(fields[1].ty.map(|ty| ty.id), Some(TypeId::of::<Point>()));
    assert_eq!(fields[0].ty.unwrap().fields().len(), 2);
    assert_eq!(fields[2].ty, None);

    let segment =
        Segment { from: Point { x: 0, y: 1 }, to: Point { x: 2, y: 3 }, label: "s".to_owned() };
    let to = segment.field::<Point>(FieldId::Named("to")).unwrap();
    assert_eq!(to.field::<i32>(FieldId::Named("y")), Some(&3));
    assert_eq!(segment.field::<String>(FieldId::Named("label")), Some(&"s".to_owned()));
    assert_eq!(segment.field::<Point>(FieldId::Named("label")), None);
    assert_eq!(segment.from.x, 0);
}

#[test]
fn try_type_info_of_registered_types() {
    assert_eq!(<Point as TryTypeInfo>::TRY_TYPE.map(|ty| ty.ident), Some("Point"));
    assert_eq!(<String as TryTypeInfo>::TRY_TYPE, None);
    assert_eq!(<u8 as TryTypeInfo>::TRY_TYPE, None);
    assert_eq!(<i32 as TryTypeInfo>::TRY_TYPE, None);
    assert_eq!(<usize as TryTypeInfo>::TRY_TYPE, None);
    assert_eq!(<bool as TryTypeInfo>::TRY_TYPE, None);
    assert_eq!(<char as TryTypeInfo>::TRY_TYPE, None);
    assert_eq!(<&'static str as TryTypeInfo>::TRY_TYPE, None);
    assert_eq!(<() as TryTypeInfo>::TRY_TYPE, None);
    assert_eq!(<Option<Point> as TryTypeInfo>::TRY_TYPE, None);
    assert_eq!(<Vec<u8> as TryTypeInfo>::TRY_TYPE, None);
    assert_eq!(<Box<Point> as TryTypeInfo>::TRY_TYPE, None);
}

fn add_suffix_to_label(anything: &mut dyn DynamicTypeInfo) {
    let field = anything.field_any_mut(FieldId::Named("label")).unwrap();
    let label = field.0.downcast_mut::<String>().unwrap();
    label.push_str(" Smith");
}

fn describe(anything: &dyn DynamicTypeInfo) -> (&'static str, Option<String>) {
    (anything.type_ref().ident, anything.variant().map(|ident| ident.to_owned()))
}

#[test]
fn dynamic_dispatch_through_a_trait_object() {
    let mut signal = Signal::Named { level: 1, label: "Lisa".to_owned() };
    add_suffix_to_label(&mut signal);
    assert_eq!(signal.field::<String>(FieldId::Named("label")), Some(&"Lisa Smith".to_owned()));

    let values: Vec<Box<dyn DynamicTypeInfo>> =
        vec![Box::new(Point { x: 1, y: 2 }), Box::new(Signal::Level(1)), Box::new(Unit)];
    let described: Vec<(&str, Option<String>)> =
        values.iter().map(|value| describe(value.as_ref())).collect();
    assert_eq!(
        described,
        vec![("Point", None), ("Signal", Some("Level".to_owned())), ("Unit", None)]
    );
}

#[test]
fn type_ref_is_the_same_for_every_value() {
    let a = Point { x: 1, y: 2 };
    let b = Point { x: 3, y: 4 };
    assert_eq!(a.type_ref(), b.type_ref());
    assert_eq!(*a.type_ref(), Point::TYPE);
    assert_ne!(*a.type_ref(), Unit::TYPE);
}

fn add_to_x<A: TypeInfo>(anything: &mut A, amount: i32) {
    let x = anything.field_mut::<i32>(FieldId::Named("x")).unwrap();
    *x += amount;
}

#[test]
fn static_dispatch_through_a_type_parameter() {
    let mut point = Point { x: 1, y: 2 };
    add_to_x(&mut point, 41);
    assert_eq!(point.x, 42);
    assert_eq!(point.y, 2);
}
