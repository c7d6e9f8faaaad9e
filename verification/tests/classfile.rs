use jvm::array::{JvmArray, JvmArrayType};
use jvm::attribute::codeattributes::CodeAttribute;
use jvm::attribute::{Attribute, Attributes};
use jvm::bytes::{read_u16, read_u32, read_u64, read_u8, text_string, utf8_string};
use jvm::class::{Class, ClassAccessFlags, ClassInitializationStatus};
use jvm::classpath::{ClassLocation, ClassPath};
use jvm::constant::{reserved_for, Constant, Utf8Reserved};
use jvm::constantpool::{parse_constant, ConstantPool, ConstantTag};
use jvm::debug::DebugLevel;
use jvm::environment::Environment;
use jvm::error::{FatalError, FatalErrorType, NonFatalError, NonFatalErrorType};
use jvm::exceptions::{Exception, ExceptionTable};
use jvm::field::{Field, FieldAccessFlags, Fields};
use jvm::frame::Frame;
use jvm::heap::Heap;
use jvm::method::{
    count_descriptor_parameters, descriptor_return_type, Method, MethodAccessFlags,
    MethodIterator, Methods,
};
use jvm::methodarea::LoadedClass;
use jvm::object::JvmObject;
use jvm::opcodes::{ComparisonType, OperandCode};
use jvm::stack::Stack;
use jvm::typevalues::{
    create_null_value, find_byte, skip_type, JvmPrimitiveType, JvmReferenceTargetType,
    JvmReferenceType, JvmType, JvmValue,
};
use jvm::vm::Vm;
use jvm::Jvm;

fn be16(value: u16) -> [u8; 2] {
    value.to_be_bytes()
}

fn utf8(text: &str) -> Vec<u8> {
    let mut out = vec![1u8];
    out.extend_from_slice(&be16(text.len() as u16));
    out.extend_from_slice(text.as_bytes());
    out
}

/// The class file of a class `Sample extends Base` with one field `count`
/// of type `I` and one method `run()V` whose code is `return`.
///
/// Constant pool: 1 "Sample", 2 class #1, 3 "Base", 4 class #3, 5 "Code",
/// 6 "count", 7 "I", 8 "run", 9 "()V", 10 long (two slots), 12 integer.
fn sample() -> Vec<u8> {
    let mut out: Vec<u8> = Vec::new();
    out.extend_from_slice(&[0xca, 0xfe, 0xba, 0xbe, 0, 3, 0, 52]);
    out.extend_from_slice(&be16(13));
    out.extend_from_slice(&utf8("Sample"));
    out.extend_from_slice(&[7, 0, 1]);
    out.extend_from_slice(&utf8("Base"));
    out.extend_from_slice(&[7, 0, 3]);
    out.extend_from_slice(&utf8("Code"));
    out.extend_from_slice(&utf8("count"));
    out.extend_from_slice(&utf8("I"));
    out.extend_from_slice(&utf8("run"));
    out.extend_from_slice(&utf8("()V"));
    out.extend_from_slice(&[5, 1, 2, 3, 4, 5, 6, 7, 8]);
    out.extend_from_slice(&[3, 0, 0, 1, 0]);
    // access, this, super, interfaces
    out.extend_from_slice(&be16(0x0021));
    out.extend_from_slice(&be16(2));
    out.extend_from_slice(&be16(4));
    out.extend_from_slice(&be16(2));
    out.extend_from_slice(&be16(4));
    out.extend_from_slice(&be16(2));
    // one field without attributes
    out.extend_from_slice(&be16(1));
    out.extend_from_slice(&be16(0x0009));
    out.extend_from_slice(&be16(6));
    out.extend_from_slice(&be16(7));
    out.extend_from_slice(&be16(0));
    // one method with a code attribute
    out.extend_from_slice(&be16(1));
    out.extend_from_slice(&be16(0x0001));
    out.extend_from_slice(&be16(8));
    out.extend_from_slice(&be16(9));
    out.extend_from_slice(&be16(1));
    out.extend_from_slice(&be16(5));
    out.extend_from_slice(&[0, 0, 0, 13]);
    out.extend_from_slice(&[0, 4, 0, 2, 0, 0, 0, 1, 0xb1, 0, 0, 0, 0]);
    // no class attributes
    out.extend_from_slice(&be16(0));
    out
}

#[test]
fn class_file_is_read_field_by_field() {
    let class = Class::load_from_bytes(sample()).unwrap();
    assert_eq!(class.magic, 0xCAFEBABE);
    assert_eq!(class.minor_version, 3);
    assert_eq!(class.major_version, 52);
    assert_eq!(class.constant_pool_count, 13);
    assert_eq!(class.access_flags, 0x0021);
    assert_eq!(class.this_class, 2);
    assert_eq!(class.super_class, 4);
    assert_eq!(class.interfaces_count, 2);
    assert_eq!(class.interfaces, vec![4, 2]);
    assert_eq!(class.fields_count, 1);
    assert_eq!(class.methods_count, 1);
    assert_eq!(class.attributes_count, 0);
    assert_eq!(class.get_class_name(), Some("Sample".to_string()));
    assert_eq!(class.resolve_superclass(), Some("Base".to_string()));
    assert_eq!(class.superclass_name(), Some("Base".to_string()));
    assert_eq!(class.get_fields_ref().fields_count(), 1);
    assert_eq!(class.get_methods_ref().methods_count(), 1);
}

#[test]
fn constant_pool_is_one_indexed_and_wide_entries_take_two_slots() {
    let class = Class::load_from_bytes(sample()).unwrap();
    let pool = class.get_constant_pool_ref();
    assert_eq!(pool.constant_pool_count(), 13);
    assert_eq!(*pool.get_constant_ref(0), Constant::Default());
    assert_eq!(
        *pool.get_constant_ref(1),
        Constant::Utf8(1, Utf8Reserved::NotReserved, 6, "Sample".to_string())
    );
    assert_eq!(*pool.get_constant_ref(2), Constant::Class(7, 1));
    assert_eq!(
        *pool.get_constant_ref(5),
        Constant::Utf8(1, Utf8Reserved::Code, 4, "Code".to_string())
    );
    assert_eq!(*pool.get_constant_ref(10), Constant::Long(5, 0x0102030405060708));
    assert_eq!(*pool.get_constant_ref(11), Constant::Default());
    assert_eq!(pool.get_constant_clone(12), Constant::Integer(3, 256));
    assert_eq!(pool.utf8(3), Some(&"Base".to_string()));
    assert_eq!(pool.utf8(2), None);
    assert_eq!(pool.utf8(13), None);
    assert_eq!(pool.class_name_at(4), Some(&"Base".to_string()));
    assert_eq!(pool.class_name_at(1), None);
    // count, then the bytes of all entries
    assert_eq!(pool.byte_len(), 2 + 9 + 3 + 7 + 3 + 7 + 8 + 4 + 6 + 6 + 9 + 5);
}

#[test]
fn constant_pool_entries_are_read_by_tag() {
    let read = |bytes: &[u8]| parse_constant(bytes, 0);
    assert_eq!(read(&[7, 0, 9]), Some((Constant::Class(7, 9), 3)));
    assert_eq!(read(&[9, 0, 1, 0, 2]), Some((Constant::Fieldref(9, 1, 2), 5)));
    assert_eq!(read(&[10, 1, 0, 0, 2]), Some((Constant::Methodref(10, 256, 2), 5)));
    assert_eq!(read(&[11, 0, 1, 0, 2]), Some((Constant::InterfaceMethodref(11, 1, 2), 5)));
    assert_eq!(read(&[8, 0, 5]), Some((Constant::String(8, 5), 3)));
    assert_eq!(read(&[3, 0xff, 0, 0, 1]), Some((Constant::Integer(3, 0xff00_0001), 5)));
    assert_eq!(read(&[4, 0x3f, 0x80, 0, 0]), Some((Constant::Float(4, 0x3f80_0000), 5)));
    assert_eq!(
        read(&[6, 0x40, 0, 0, 0, 0, 0, 0, 1]),
        Some((Constant::Double(6, 0x4000_0000_0000_0001), 9))
    );
    assert_eq!(read(&[12, 0, 3, 0, 4]), Some((Constant::NameAndType(12, 3, 4), 5)));
    assert_eq!(read(&[15, 6, 0, 4]), Some((Constant::MethodHandle(15, 6, 4), 4)));
    assert_eq!(read(&[16, 0, 4]), Some((Constant::MethodType(16, 4), 3)));
    assert_eq!(read(&[18, 0, 3, 0, 4]), Some((Constant::InvokeDynamic(18, 3, 4), 5)));
    assert_eq!(
        read(&[1, 0, 2, b'h', b'i', 9]),
        Some((Constant::Utf8(1, Utf8Reserved::NotReserved, 2, "hi".to_string()), 5))
    );
    // a text that is no valid UTF-8 is empty
    assert_eq!(
        read(&[1, 0, 2, 0xc0, 0x80]),
        Some((Constant::Utf8(1, Utf8Reserved::NotReserved, 2, String::new()), 5))
    );
    // cut short, unknown, unsupported
    assert_eq!(read(&[7, 0]), None);
    assert_eq!(read(&[9, 0, 1, 0]), None);
    assert_eq!(read(&[5, 0, 0, 0, 0, 0, 0, 0]), None);
    assert_eq!(read(&[1, 0, 3, b'h', b'i']), None);
    assert_eq!(read(&[2, 0, 0, 0, 0]), None);
    assert_eq!(read(&[19, 0, 0]), None);
    assert_eq!(read(&[20, 0, 0]), None);
    assert_eq!(read(&[]), None);
    assert_eq!(parse_constant(&[0, 0, 7, 0, 9], 2), Some((Constant::Class(7, 9), 3)));
    assert_eq!(parse_constant(&[0, 0, 7, 0, 9], 5), None);
}

#[test]
fn constant_tags_are_told_apart() {
    assert_eq!(ConstantTag::from_u8(7), Some(ConstantTag::Class));
    assert_eq!(ConstantTag::from_u8(1), Some(ConstantTag::Utf8));
    assert_eq!(ConstantTag::from_u8(18), Some(ConstantTag::InvokeDynamic));
    assert_eq!(ConstantTag::from_u8(20), Some(ConstantTag::Package));
    assert_eq!(ConstantTag::from_u8(0), None);
    assert_eq!(ConstantTag::from_u8(2), None);
    assert_eq!(ConstantTag::from_u8(13), None);
    assert_eq!(ConstantTag::from_u8(17), None);
}

#[test]
fn reserved_attribute_names_are_marked() {
    assert_eq!(reserved_for(&"Code".to_string()), Utf8Reserved::Code);
    assert_eq!(reserved_for(&"StackMapTable".to_string()), Utf8Reserved::StackMapTable);
    assert_eq!(reserved_for(&"ConstantValue".to_string()), Utf8Reserved::ConstantValue);
    assert_eq!(reserved_for(&"code".to_string()), Utf8Reserved::NotReserved);
    assert_eq!(reserved_for(&String::new()), Utf8Reserved::NotReserved);
}

#[test]
fn constant_pool_reads_count_and_entries() {
    let mut bytes = vec![0xaa];
    bytes.extend_from_slice(&be16(3));
    bytes.extend_from_slice(&[7, 0, 2]);
    bytes.extend_from_slice(&utf8("X"));
    bytes.push(0xbb);
    let pool = ConstantPool::from(&bytes, 1).unwrap();
    assert_eq!(pool.constant_pool_count(), 3);
    assert_eq!(pool.byte_len(), 2 + 3 + 4);
    assert_eq!(pool.class_name_at(1), Some(&"X".to_string()));
    // a count of 0 or 1 announces no entry
    assert_eq!(ConstantPool::from(&[0, 0], 0).unwrap().constant_pool_count(), 0);
    assert_eq!(ConstantPool::from(&[0, 1], 0).unwrap().constant_pool_count(), 1);
    assert_eq!(ConstantPool::from(&[0, 1], 0).unwrap().byte_len(), 2);
    // a wide entry in the last slot but one fills the pool
    let wide = ConstantPool::from(&[0, 3, 6, 0, 0, 0, 0, 0, 0, 0, 9], 0).unwrap();
    assert_eq!(*wide.get_constant_ref(1), Constant::Double(6, 9));
    assert_eq!(*wide.get_constant_ref(2), Constant::Default());
    assert_eq!(wide.byte_len(), 11);
    // missing entries, missing count
    assert!(ConstantPool::from(&[0, 3, 7, 0, 2], 0).is_none());
    assert!(ConstantPool::from(&[0], 0).is_none());
    assert!(ConstantPool::from(&[0, 1], 5).is_none());
    assert!(ConstantPool::from(&[0, 2, 99, 0, 0], 0).is_none());
}

#[test]
fn constant_pool_slot_can_be_set() {
    let mut pool = ConstantPool::from(&[0, 2, 7, 0, 1], 0).unwrap();
    pool.set(1, Constant::Integer(3, 77));
    assert_eq!(*pool.get_constant_ref(1), Constant::Integer(3, 77));
    assert_eq!(pool.constant_pool_count(), 2);
    assert_eq!(pool.byte_len(), 5);
    let empty = ConstantPool::empty();
    assert_eq!(empty.constant_pool_count(), 0);
    assert_eq!(empty.byte_len(), 0);
}

#[test]
fn malformed_class_files_are_turned_down() {
    let good = sample();
    assert!(Class::load_from_bytes(good.clone()).is_some());
    // every proper prefix is cut short somewhere
    for cut in 0..good.len() {
        assert!(Class::load_from_bytes(good[..cut].to_vec()).is_none(), "cut at {}", cut);
    }
    // trailing bytes are not looked at
    let mut longer = good.clone();
    longer.push(0);
    assert!(Class::load_from_bytes(longer).is_some());
    // the magic number must be right
    let mut bad = good.clone();
    bad[3] = 0xbf;
    assert!(Class::load_from_bytes(bad).is_none());
    // an unknown constant tag
    let mut bad = good.clone();
    bad[10] = 2;
    assert!(Class::load_from_bytes(bad).is_none());
    assert!(Class::load_from_bytes(Vec::new()).is_none());
}

#[test]
fn field_table_is_read_and_searched() {
    let class = Class::load_from_bytes(sample()).unwrap();
    let fields = class.get_fields_ref();
    let pool = class.get_constant_pool_ref();
    let field = fields.get(0);
    assert_eq!(field.access_flags, 0x0009);
    assert_eq!(field.name_index, 6);
    assert_eq!(field.descriptor_index, 7);
    assert_eq!(field.attributes_count, 0);
    assert_eq!(field.byte_len(), 8);
    assert_eq!(fields.byte_len(), 10);
    let count = "count".to_string();
    let int = "I".to_string();
    assert_eq!(fields.index_of(&count, &int, pool), Some(0));
    assert!(fields.get_field_ref(&count, &int, pool).is_some());
    assert!(fields.contains_field_with_name_and_type(&count, &int, pool));
    assert!(!fields.contains_field_with_name_and_type(&count, &"J".to_string(), pool));
    assert!(!fields.contains_field_with_name_and_type(&"run".to_string(), &int, pool));
    assert!(fields.get_field_ref(&"none".to_string(), &int, pool).is_none());
    assert!(field.has_name_and_type(&count, &int, pool));
}

#[test]
fn field_tables_are_read_from_bytes() {
    // two fields, the second with one attribute of two bytes
    let bytes = [
        0, 2, 0, 1, 0, 2, 0, 3, 0, 0, 0, 8, 0, 4, 0, 5, 0, 1, 0, 9, 0, 0, 0, 2, 0xab, 0xcd,
    ];
    let mut fields = Fields::from(&bytes, 0).unwrap();
    assert_eq!(fields.fields_count(), 2);
    assert_eq!(fields.byte_len(), 26);
    assert_eq!(fields.get(1).access_flags, 8);
    assert_eq!(fields.get(1).attributes.get_ref(0).info, vec![0xab, 0xcd]);
    assert_eq!(fields.get(1).byte_len(), 16);
    assert!(Fields::from(&bytes[..25], 0).is_none());
    assert!(Fields::from(&bytes, 1).is_none());
    let single = Field::from(&bytes, 2).unwrap();
    assert_eq!((single.access_flags, single.name_index, single.descriptor_index), (1, 2, 3));
    assert!(Field::from(&bytes, 22).is_none());
    fields.set(0, single);
    assert_eq!(fields.get(0).name_index, 2);
    assert_eq!(Fields::empty().fields_count(), 0);
}

#[test]
fn method_table_is_read_with_limits_and_descriptor() {
    let class = Class::load_from_bytes(sample()).unwrap();
    let methods = class.get_methods_ref();
    let pool = class.get_constant_pool_ref();
    let method = methods.get(0);
    assert_eq!(method.access_flags, 1);
    assert_eq!(method.name_index, 8);
    assert_eq!(method.descriptor_index, 9);
    assert_eq!(method.class_index, 0);
    assert_eq!(method.attributes_count, 1);
    assert_eq!(method.max_stack, 4);
    assert_eq!(method.max_locals, 2);
    assert_eq!(method.parameter_count, 0);
    assert_eq!(method.return_type, JvmType::Primitive(JvmPrimitiveType::Void));
    assert_eq!(method.byte_len(), 8 + 6 + 13);
    assert_eq!(methods.byte_len(), 2 + 27);
    assert_eq!(method.get_code(pool), Some(&[0xb1u8][..]));
    assert_eq!(method.get_exception_table(pool).unwrap().exceptions_table_count(), 0);
    assert_eq!(method.code_index(pool), Some(0));
    let run = "run".to_string();
    let void = "()V".to_string();
    assert_eq!(methods.index_of(&run, &void, pool), Some(0));
    assert!(methods.get_by_name_and_type(&run, &void, pool).is_some());
    assert!(methods.get_by_name_and_type(&run, &"()I".to_string(), pool).is_none());
    assert!(class.get_method_rc_by_name_and_type(&run, &void).is_some());
    assert!(class.get_method_rc_by_name_and_type(&"walk".to_string(), &void).is_none());
}

#[test]
fn method_without_code_has_no_instructions() {
    let pool = ConstantPool::from(&[0, 1], 0).unwrap();
    let bytes = [0, 1, 1, 0, 0, 7, 0, 8, 0, 0];
    let mut methods = Methods::from(&bytes, 0, &pool).unwrap();
    assert_eq!(methods.methods_count(), 1);
    let method = methods.get(0);
    assert_eq!(method.access_flags, 0x0100);
    assert_eq!(method.get_code(&pool), None);
    assert_eq!((method.max_stack, method.max_locals, method.parameter_count), (0, 0, 0));
    assert_eq!(method.return_type, JvmType::Primitive(JvmPrimitiveType::Invalid));
    assert!(Methods::from(&bytes[..9], 0, &pool).is_none());
    let single = Method::from(&bytes, 2, &pool).unwrap();
    assert_eq!(single.byte_len(), 8);
    methods.set(0, single);
    assert_eq!(Methods::empty().methods_count(), 0);
}

#[test]
fn code_that_is_cut_short_is_no_code() {
    // pool: 1 = "Code"; a method whose Code attribute announces 9 bytes of
    // code but holds only one
    let mut pool_bytes = vec![0, 2];
    pool_bytes.extend_from_slice(&utf8("Code"));
    let pool = ConstantPool::from(&pool_bytes, 0).unwrap();
    let bytes = [0, 1, 0, 0, 0, 0, 0, 1, 0, 1, 0, 0, 0, 9, 0, 3, 0, 1, 0, 0, 0, 9, 0xb1];
    let method = Method::from(&bytes, 0, &pool).unwrap();
    assert_eq!((method.max_stack, method.max_locals), (3, 1));
    assert_eq!(method.get_code(&pool), None);
    assert!(method.get_exception_table(&pool).is_none());

    // a method with two bytes of code and one row in its exception table
    let bytes = [
        0, 1, 0, 0, 0, 0, 0, 1, 0, 1, 0, 0, 0, 22, // header, one attribute of 22 bytes
        0, 3, 0, 1, 0, 0, 0, 2, 0x03, 0xac, // limits, code
        0, 1, 0, 0, 0, 2, 0, 1, 0, 0, // one row
        0, 0,
    ];
    let method = Method::from(&bytes, 0, &pool).unwrap();
    assert_eq!(method.get_code(&pool), Some(&[0x03u8, 0xac][..]));
    let table = method.get_exception_table(&pool).unwrap();
    assert_eq!(table.exceptions_table_count(), 1);
    assert_eq!(table.get(0), Exception { start_pc: 0, end_pc: 2, handler_pc: 1, catch_type: 0 });
}

#[test]
fn method_iterator_walks_the_table_in_order() {
    let pool = ConstantPool::from(&[0, 1], 0).unwrap();
    let bytes = [0, 2, 0, 1, 0, 0, 0, 0, 0, 0, 0, 2, 0, 0, 0, 0, 0, 0];
    let methods = Methods::from(&bytes, 0, &pool).unwrap();
    let mut walk = MethodIterator::new(&methods);
    assert_eq!(walk.next().unwrap().access_flags, 1);
    assert_eq!(walk.next().unwrap().access_flags, 2);
    assert!(walk.next().is_none());
    assert!(walk.next().is_none());
}

#[test]
fn method_descriptor_gives_parameter_count_and_return_type() {
    assert_eq!(count_descriptor_parameters(b"()V"), 0);
    assert_eq!(count_descriptor_parameters(b"(I)V"), 1);
    assert_eq!(count_descriptor_parameters(b"(IJD)V"), 3);
    assert_eq!(count_descriptor_parameters(b"([Ljava/lang/String;)V"), 1);
    assert_eq!(count_descriptor_parameters(b"(Ljava/lang/Object;[[IZ)Ljava/lang/String;"), 3);
    assert_eq!(count_descriptor_parameters(b"I"), 0);
    assert_eq!(count_descriptor_parameters(b""), 0);
    assert_eq!(count_descriptor_parameters(b"(II"), 2);
    assert_eq!(count_descriptor_parameters(b"(ILfoo"), 1);
    assert_eq!(count_descriptor_parameters(b"(I?I)V"), 1);
    assert_eq!(descriptor_return_type(b"()V"), JvmType::Primitive(JvmPrimitiveType::Void));
    assert_eq!(descriptor_return_type(b"(I)J"), JvmType::Primitive(JvmPrimitiveType::LongInteger));
    assert_eq!(
        descriptor_return_type(b"()Ljava/lang/String;"),
        JvmType::Reference(JvmReferenceType::Class("java/lang/String".to_string()))
    );
    assert_eq!(descriptor_return_type(b"(I"), JvmType::Primitive(JvmPrimitiveType::Invalid));
    assert_eq!(descriptor_return_type(b"(I)"), JvmType::Primitive(JvmPrimitiveType::Invalid));
    assert_eq!(descriptor_return_type(b"(I)Q"), JvmType::Primitive(JvmPrimitiveType::Invalid));
}

#[test]
fn type_descriptors_are_read() {
    let primitive = |letter: u8| JvmType::from(&[letter]);
    assert_eq!(primitive(b'V'), Ok(JvmType::Primitive(JvmPrimitiveType::Void)));
    assert_eq!(primitive(b'B'), Ok(JvmType::Primitive(JvmPrimitiveType::Byte)));
    assert_eq!(primitive(b'C'), Ok(JvmType::Primitive(JvmPrimitiveType::Char)));
    assert_eq!(primitive(b'F'), Ok(JvmType::Primitive(JvmPrimitiveType::Float)));
    assert_eq!(primitive(b'D'), Ok(JvmType::Primitive(JvmPrimitiveType::Double)));
    assert_eq!(primitive(b'I'), Ok(JvmType::Primitive(JvmPrimitiveType::Integer)));
    assert_eq!(primitive(b'J'), Ok(JvmType::Primitive(JvmPrimitiveType::LongInteger)));
    assert_eq!(primitive(b'S'), Ok(JvmType::Primitive(JvmPrimitiveType::Short)));
    assert_eq!(primitive(b'Z'), Ok(JvmType::Primitive(JvmPrimitiveType::Boolean)));
    assert_eq!(
        JvmType::from(b"Ljava/lang/Object;"),
        Ok(JvmType::Reference(JvmReferenceType::Class("java/lang/Object".to_string())))
    );
    assert_eq!(
        JvmType::from(b"[[I"),
        Ok(JvmType::Reference(JvmReferenceType::Array(
            Box::new(JvmType::Reference(JvmReferenceType::Array(
                Box::new(JvmType::Primitive(JvmPrimitiveType::Integer)),
                0
            ))),
            0
        )))
    );
    assert_eq!(JvmType::from(b"Q"), Err(FatalErrorType::InvalidFieldType(b'Q')));
    assert_eq!(JvmType::from(b""), Err(FatalErrorType::InvalidFieldType(0)));
    assert_eq!(JvmType::from(b"["), Err(FatalErrorType::InvalidFieldType(0)));
    assert_eq!(JvmType::from(b"[x"), Err(FatalErrorType::InvalidFieldType(b'x')));
    assert_eq!(JvmType::from(b"Lfoo"), Err(FatalErrorType::InvalidFieldType(b'L')));
    assert_eq!(JvmType::from(&[b'L', 0xff, b';']), Err(FatalErrorType::InvalidFieldType(b'L')));
    assert_eq!(
        JvmType::from_descriptor(b"(I)J", 3),
        Ok(JvmType::Primitive(JvmPrimitiveType::LongInteger))
    );
    assert_eq!(skip_type(b"[[Lx;I", 0), Some(5));
    assert_eq!(skip_type(b"I", 1), None);
    assert_eq!(find_byte(b"abca", 1, b'a'), Some(3));
    assert_eq!(find_byte(b"abca", 0, b'z'), None);
}

#[test]
fn types_have_default_values() {
    assert_eq!(JvmType::default(), JvmType::Primitive(JvmPrimitiveType::Invalid));
    assert!(JvmType::Primitive(JvmPrimitiveType::Void).is_void());
    assert!(!JvmType::Primitive(JvmPrimitiveType::Integer).is_void());
    assert_eq!(
        JvmType::Primitive(JvmPrimitiveType::Short).initial_value(4),
        JvmValue::Primitive(JvmPrimitiveType::Short, 0, 4)
    );
    match JvmType::Reference(JvmReferenceType::Class("X".to_string())).initial_value(2) {
        JvmValue::Reference(JvmReferenceType::Null, JvmReferenceTargetType::Null, 2) => {}
        other => panic!("unexpected value {:?}", other),
    }
}

#[test]
fn values_are_equal_whatever_their_access_flags() {
    let a = JvmValue::Primitive(JvmPrimitiveType::Integer, 7, 0);
    let b = JvmValue::Primitive(JvmPrimitiveType::Integer, 7, 0xffff);
    assert_eq!(a, b);
    assert_ne!(a, JvmValue::Primitive(JvmPrimitiveType::Integer, 8, 0));
    assert_ne!(a, JvmValue::Primitive(JvmPrimitiveType::Short, 7, 0));
    assert_ne!(a, create_null_value());
    let object = |handle: usize, access: u16| {
        JvmValue::Reference(
            JvmReferenceType::Class("C".to_string()),
            JvmReferenceTargetType::Object(handle),
            access,
        )
    };
    assert_eq!(object(1, 0), object(1, 9));
    assert_ne!(object(1, 0), object(2, 0));
    // the same target under another static type is the same reference
    assert_eq!(
        object(1, 0),
        JvmValue::Reference(JvmReferenceType::Null, JvmReferenceTargetType::Object(1), 0)
    );
    assert_ne!(
        object(1, 0),
        JvmValue::Reference(
            JvmReferenceType::Class("C".to_string()),
            JvmReferenceTargetType::Array(1),
            0
        )
    );
    assert_eq!(create_null_value(), create_null_value());
    assert!(JvmValue::Primitive(JvmPrimitiveType::Void, 0, 0).is_void());
    assert!(!a.is_void());
    assert_eq!(a.clone(), a);
    assert_eq!(object(3, 1).clone(), object(3, 1));
}

#[test]
fn attributes_are_read_from_bytes() {
    let bytes = [9, 0, 2, 0, 5, 0, 0, 0, 3, 1, 2, 3, 0, 6, 0, 0, 0, 0, 7];
    let attribute = Attribute::from(&bytes, 3).unwrap();
    assert_eq!(attribute.attribute_name_index, 5);
    assert_eq!(attribute.attribute_length, 3);
    assert_eq!(attribute.info, vec![1, 2, 3]);
    assert_eq!(attribute.byte_len(), 9);
    assert!(Attribute::from(&bytes, 14).is_none());
    assert!(Attribute::from(&bytes[..11], 3).is_none());

    let mut table = Attributes::from(&bytes, 1).unwrap();
    assert_eq!(table.attributes_count(), 2);
    assert_eq!(table.len(), 2);
    assert_eq!(table.byte_len(), 2 + 9 + 6);
    assert_eq!(table.get_ref(1).attribute_name_index, 6);
    assert!(table.get_ref(1).info.is_empty());
    let copy = table.get(0);
    assert_eq!(copy.info, vec![1, 2, 3]);
    assert_eq!(copy.attribute_name_index, 5);
    table.set(1, copy);
    assert_eq!(table.get_ref(1).attribute_length, 3);
    assert!(Attributes::from(&bytes[..17], 1).is_none());
    assert_eq!(Attributes::empty().len(), 0);

    let blank = Attribute::new(4);
    assert_eq!(blank.info, vec![0, 0, 0, 0]);
    assert_eq!((blank.byte_len(), blank.attribute_name_index, blank.attribute_length), (0, 0, 0));
    assert_eq!(blank.duplicate().info, blank.info);
}

#[test]
fn code_attribute_is_taken_apart() {
    let content = vec![
        0, 4, 0, 2, 0, 0, 0, 2, 0xb1, 0xb1, // limits, two bytes of code
        0, 1, 0, 0, 0, 2, 0, 1, 0, 9, // one exception row
        0, 0,
    ];
    let code = CodeAttribute::from(content.clone()).unwrap();
    assert_eq!(code.max_stack, 4);
    assert_eq!(code.max_locals, 2);
    assert_eq!(code.code_length, 2);
    assert_eq!(code.code_offset, 8);
    assert_eq!(code.exceptions_table_count, 1);
    assert_eq!(
        code.exceptions.get(0),
        Exception { start_pc: 0, end_pc: 2, handler_pc: 1, catch_type: 9 }
    );
    assert_eq!(code.bytes, content);
    assert!(CodeAttribute::from(content[..19].to_vec()).is_none());
    assert!(CodeAttribute::from(content[..7].to_vec()).is_none());
    assert!(CodeAttribute::from(vec![0, 0, 0, 0, 0, 0, 0, 9, 1]).is_none());
}

#[test]
fn exception_table_is_read_from_bytes() {
    let bytes = [0xee, 0, 2, 0, 1, 0, 2, 0, 3, 0, 4, 1, 0, 2, 0, 3, 0, 4, 0];
    let table = ExceptionTable::from(&bytes, 1).unwrap();
    assert_eq!(table.exceptions_table_count(), 2);
    assert_eq!(table.byte_len(), 18);
    assert_eq!(table.get(0), Exception { start_pc: 1, end_pc: 2, handler_pc: 3, catch_type: 4 });
    assert_eq!(
        table.get(1),
        Exception { start_pc: 256, end_pc: 512, handler_pc: 768, catch_type: 1024 }
    );
    assert_eq!(table.get(0).byte_len(), 8);
    assert!(ExceptionTable::from(&bytes[..18], 1).is_none());
    assert!(ExceptionTable::from(&bytes, 18).is_none());
    assert_eq!(Exception::from(&bytes, 3), Some(table.get(0)));
    assert_eq!(Exception::from(&bytes, 12), None);
    assert_eq!(ExceptionTable::empty().exceptions_table_count(), 0);
}

#[test]
fn symbolic_references_are_resolved() {
    // pool: 1 "Owner", 2 class #1, 3 "name", 4 "I", 5 name-and-type #3 #4,
    // 6 fieldref #2 #5, 7 methodref #2 #5, 8 fieldref #2 #3 (broken)
    let mut out: Vec<u8> = vec![0xca, 0xfe, 0xba, 0xbe, 0, 0, 0, 52];
    out.extend_from_slice(&be16(9));
    out.extend_from_slice(&utf8("Owner"));
    out.extend_from_slice(&[7, 0, 1]);
    out.extend_from_slice(&utf8("name"));
    out.extend_from_slice(&utf8("I"));
    out.extend_from_slice(&[12, 0, 3, 0, 4]);
    out.extend_from_slice(&[9, 0, 2, 0, 5]);
    out.extend_from_slice(&[10, 0, 2, 0, 5]);
    out.extend_from_slice(&[9, 0, 2, 0, 3]);
    out.extend_from_slice(&[0, 1, 0, 2, 0, 0, 0, 0, 0, 0, 0, 0, 0, 0]);
    let class = Class::load_from_bytes(out).unwrap();
    let names = ("Owner".to_string(), "name".to_string(), "I".to_string());
    assert_eq!(class.resolve_field_ref(6), Some(names.clone()));
    assert_eq!(class.resolve_method_ref(7), Some((names.1, names.2, names.0)));
    assert_eq!(class.resolve_field_ref(7), None);
    assert_eq!(class.resolve_method_ref(6), None);
    assert_eq!(class.resolve_field_ref(8), None);
    assert_eq!(class.resolve_field_ref(0), None);
    assert_eq!(class.resolve_field_ref(9), None);
    assert_eq!(class.resolve_method_ref(500), None);
    assert_eq!(class.get_class_name(), Some("Owner".to_string()));
    assert_eq!(class.resolve_superclass(), None);
}

#[test]
fn class_without_a_name_is_not_taken_into_the_method_area() {
    // this_class points at a text, not at a class entry
    let mut out: Vec<u8> = vec![0xca, 0xfe, 0xba, 0xbe, 0, 0, 0, 52];
    out.extend_from_slice(&be16(2));
    out.extend_from_slice(&utf8("Nameless"));
    out.extend_from_slice(&[0, 1, 0, 1, 0, 0, 0, 0, 0, 0, 0, 0, 0, 0]);
    let class = Class::load_from_bytes(out.clone()).unwrap();
    assert_eq!(class.get_class_name(), None);
    assert!(LoadedClass::new(class).is_none());
    let environment = Environment::new(ClassPath::new(DebugLevel::Error), Vec::new());
    let mut area = jvm::methodarea::MethodArea::new(DebugLevel::Error, environment);
    assert_eq!(area.load_class_from_bytes(out), None);
    assert_eq!(area.class_count(), 0);

    let loaded = LoadedClass::new(Class::load_from_bytes(sample()).unwrap()).unwrap();
    assert_eq!(loaded.name, "Sample");
    assert_eq!(loaded.lc, ClassInitializationStatus::VerifiedPreparedNotInitialized);
    assert_eq!(loaded.statics, vec![None]);
}

#[test]
fn mutable_field_table_of_a_class_can_be_changed() {
    let mut class = Class::load_from_bytes(sample()).unwrap();
    let replacement = Field::from(&[0, 2, 0, 8, 0, 9, 0, 0], 0).unwrap();
    class.get_mut_fields_ref().set(0, replacement);
    assert_eq!(class.get_fields_ref().get(0).access_flags, 2);
    assert_eq!(class.get_fields_ref().get(0).name_index, 8);
    assert_eq!(class.methods_count, 1);
}

#[test]
fn bytes_are_read_big_endian() {
    let bytes = [0x01, 0x02, 0x03, 0x04, 0x05, 0x06, 0x07, 0x08, 0x09];
    assert_eq!(read_u8(&bytes, 8), Some(9));
    assert_eq!(read_u8(&bytes, 9), None);
    assert_eq!(read_u16(&bytes, 0), Some(0x0102));
    assert_eq!(read_u16(&bytes, 7), Some(0x0809));
    assert_eq!(read_u16(&bytes, 8), None);
    assert_eq!(read_u16(&[0xff, 0xff], 0), Some(0xffff));
    assert_eq!(read_u32(&bytes, 1), Some(0x02030405));
    assert_eq!(read_u32(&bytes, 6), None);
    assert_eq!(read_u32(&[0xff; 4], 0), Some(u32::MAX));
    assert_eq!(read_u64(&bytes, 1), Some(0x0203040506070809));
    assert_eq!(read_u64(&bytes, 2), None);
    assert_eq!(read_u64(&[0xff; 8], 0), Some(u64::MAX));
    assert_eq!(read_u16(&bytes, usize::MAX), None);
    assert_eq!(read_u64(&[], 0), None);
}

#[test]
fn bytes_become_text_only_when_they_are_utf8() {
    let bytes = [b'a', 0xc3, 0xa9, b'z', 0xff];
    assert_eq!(utf8_string(&bytes, 0, 4), Some("a\u{e9}z".to_string()));
    assert_eq!(utf8_string(&bytes, 1, 3), Some("\u{e9}".to_string()));
    assert_eq!(utf8_string(&bytes, 0, 2), None);
    assert_eq!(utf8_string(&bytes, 3, 5), None);
    assert_eq!(utf8_string(&bytes, 2, 2), Some(String::new()));
    assert_eq!(text_string(&bytes, 0, 4), "a\u{e9}z");
    assert_eq!(text_string(&bytes, 0, 5), "");
}

#[test]
fn access_flags_have_their_bits() {
    assert_eq!(ClassAccessFlags::Public.mask(), 0x0001);
    assert_eq!(ClassAccessFlags::Final.mask(), 0x0010);
    assert_eq!(ClassAccessFlags::Super.mask(), 0x0020);
    assert_eq!(ClassAccessFlags::Interface.mask(), 0x0200);
    assert_eq!(ClassAccessFlags::Abstract.mask(), 0x0400);
    assert_eq!(ClassAccessFlags::Synthetic.mask(), 0x1000);
    assert_eq!(ClassAccessFlags::Annotation.mask(), 0x2000);
    assert_eq!(ClassAccessFlags::Enum.mask(), 0x4000);
    assert_eq!(FieldAccessFlags::Public.mask(), 0x0001);
    assert_eq!(FieldAccessFlags::Private.mask(), 0x0002);
    assert_eq!(FieldAccessFlags::Protected.mask(), 0x0004);
    assert_eq!(FieldAccessFlags::Static.mask(), 0x0008);
    assert_eq!(FieldAccessFlags::Final.mask(), 0x0010);
    assert_eq!(FieldAccessFlags::Volatile.mask(), 0x0040);
    assert_eq!(FieldAccessFlags::Transient.mask(), 0x0080);
    assert_eq!(FieldAccessFlags::Synthetic.mask(), 0x0100);
    assert_eq!(FieldAccessFlags::Enum.mask(), 0x0400);
    assert_eq!(MethodAccessFlags::Public.mask(), 0x0001);
    assert_eq!(MethodAccessFlags::Private.mask(), 0x0002);
    assert_eq!(MethodAccessFlags::Protected.mask(), 0x0004);
    assert_eq!(MethodAccessFlags::Static.mask(), 0x0008);
    assert_eq!(MethodAccessFlags::Final.mask(), 0x0010);
    assert_eq!(MethodAccessFlags::Synchronized.mask(), 0x0020);
    assert_eq!(MethodAccessFlags::Bridge.mask(), 0x0040);
    assert_eq!(MethodAccessFlags::VarArgs.mask(), 0x0080);
    assert_eq!(MethodAccessFlags::Native.mask(), 0x0100);
    assert_eq!(MethodAccessFlags::Abstract.mask(), 0x0400);
    assert_eq!(MethodAccessFlags::Strict.mask(), 0x0800);
    assert_eq!(MethodAccessFlags::Synthetic.mask(), 0x1000);
}

#[test]
fn instruction_bytes_are_told_apart() {
    assert_eq!(OperandCode::from_u8(0x01), Some(OperandCode::Aconst_null));
    assert_eq!(OperandCode::from_u8(0x60), Some(OperandCode::Iadd));
    assert_eq!(OperandCode::from_u8(0xb1), Some(OperandCode::Return));
    assert_eq!(OperandCode::from_u8(0xbe), Some(OperandCode::ArrayLength));
    assert_eq!(OperandCode::from_u8(0x9f), Some(OperandCode::If_icmpeq));
    assert_eq!(OperandCode::from_u8(0x95), Some(OperandCode::Fcmplt));
    assert_eq!(OperandCode::from_u8(0x00), None);
    assert_eq!(OperandCode::from_u8(0x09), None);
    assert_eq!(OperandCode::from_u8(0xbf), None);
    let mut known = 0;
    for byte in 0..=255u8 {
        if OperandCode::from_u8(byte).is_some() {
            known += 1;
        }
    }
    assert_eq!(known, 77);
    assert!(ComparisonType::LessThan.compare(-1, 0));
    assert!(!ComparisonType::LessThan.compare(0, 0));
    assert!(ComparisonType::LessThanOrEqual.compare(0, 0));
    assert!(ComparisonType::GreaterThan.compare(1, 0));
    assert!(ComparisonType::GreaterThanOrEqual.compare(0, 0));
    assert!(ComparisonType::Equal.compare(3, 3));
    assert!(ComparisonType::NotEqual.compare(3, 4));
}

#[test]
fn array_type_codes_are_told_apart() {
    assert_eq!(JvmArrayType::from_u8(4), Some(JvmArrayType::Boolean));
    assert_eq!(JvmArrayType::from_u8(5), Some(JvmArrayType::Char));
    assert_eq!(JvmArrayType::from_u8(6), Some(JvmArrayType::Float));
    assert_eq!(JvmArrayType::from_u8(7), Some(JvmArrayType::Double));
    assert_eq!(JvmArrayType::from_u8(8), Some(JvmArrayType::Byte));
    assert_eq!(JvmArrayType::from_u8(9), Some(JvmArrayType::Short));
    assert_eq!(JvmArrayType::from_u8(0x10), Some(JvmArrayType::Integer));
    assert_eq!(JvmArrayType::from_u8(0x11), Some(JvmArrayType::Long));
    assert_eq!(JvmArrayType::from_u8(3), None);
    assert_eq!(JvmArrayType::from_u8(10), None);
}

#[test]
fn arrays_have_a_fixed_number_of_slots() {
    let mut array = JvmArray::new(3);
    assert_eq!(array.dimension(), 3);
    assert!(array.inbounds(0));
    assert!(array.inbounds(2));
    assert!(!array.inbounds(3));
    assert!(!array.inbounds(usize::MAX));
    assert_eq!(*array.get_at(1), None);
    array.set_at(1, create_null_value());
    assert_eq!(*array.get_at(1), Some(create_null_value()));
    assert_eq!(*array.get_at(0), None);
    assert_eq!(array.dimension(), 3);
    let empty = JvmArray::new(0);
    assert!(!empty.inbounds(0));
    let filled = JvmArray::filled(2, &JvmValue::Primitive(JvmPrimitiveType::Char, 65, 0));
    assert_eq!(*filled.get_at(1), Some(JvmValue::Primitive(JvmPrimitiveType::Char, 65, 0)));
}

#[test]
fn heap_hands_out_stable_handles() {
    let mut heap = Heap::new();
    assert!(heap.array(0).is_none());
    assert!(heap.object(0).is_none());
    assert_eq!(heap.allocate_array(JvmArray::new(1)), 0);
    assert_eq!(heap.allocate_array(JvmArray::new(2)), 1);
    assert_eq!(heap.allocate_object(JvmObject::new(7, "C".to_string(), DebugLevel::Error)), 0);
    heap.store(1, 1, create_null_value());
    assert_eq!(heap.array(0).unwrap().dimension(), 1);
    assert_eq!(*heap.array(1).unwrap().get_at(1), Some(create_null_value()));
    assert_eq!(*heap.array(1).unwrap().get_at(0), None);
    heap.put_field(0, &"f".to_string(), create_null_value());
    assert_eq!(heap.object(0).unwrap().get_field(&"f".to_string()), Some(create_null_value()));
    assert_eq!(heap.object(0).unwrap().get_class(), 7);
    assert!(heap.array(2).is_none());
    assert!(heap.object(1).is_none());
}

#[test]
fn objects_keep_fields_by_name() {
    let mut object = JvmObject::new(3, "Leaf".to_string(), DebugLevel::Info);
    assert_eq!(object.get_class(), 3);
    assert_eq!(object.class_name(), "Leaf");
    let a = "a".to_string();
    let b = "b".to_string();
    assert_eq!(object.get_field(&a), None);
    object.set_field(&a, JvmValue::Primitive(JvmPrimitiveType::Integer, 1, 0));
    object.set_field(&b, JvmValue::Primitive(JvmPrimitiveType::Integer, 2, 0));
    object.set_field(&a, JvmValue::Primitive(JvmPrimitiveType::Integer, 3, 0));
    assert_eq!(object.get_field(&a), Some(JvmValue::Primitive(JvmPrimitiveType::Integer, 3, 0)));
    assert_eq!(object.get_field(&b), Some(JvmValue::Primitive(JvmPrimitiveType::Integer, 2, 0)));
    assert_eq!(object.hierarchy(), "Leaf");
    let mut middle = JvmObject::new(2, "Middle".to_string(), DebugLevel::Info);
    middle.set_super(JvmObject::new(1, "Top".to_string(), DebugLevel::Info));
    object.set_super(middle);
    assert_eq!(object.hierarchy(), "Leaf, Middle, Top");
    assert!(object.is_type_of(&"Leaf".to_string()));
    assert!(object.is_type_of(&"Middle".to_string()));
    assert!(object.is_type_of(&"Top".to_string()));
    assert!(!object.is_type_of(&"Other".to_string()));
    assert_eq!(object.get_field(&"c".to_string()), None);
    assert_eq!(object.find_field(&"c".to_string()), None);
}

#[test]
fn field_is_assigned_where_it_is_held() {
    let zero = JvmValue::Primitive(JvmPrimitiveType::Integer, 0, 0);
    let one = JvmValue::Primitive(JvmPrimitiveType::Integer, 1, 0);
    let two = JvmValue::Primitive(JvmPrimitiveType::Integer, 2, 0);
    let top_name = "top".to_string();
    let both = "both".to_string();
    let fresh = "fresh".to_string();
    let mut top = JvmObject::new(1, "Top".to_string(), DebugLevel::Info);
    top.set_field(&top_name, zero.clone());
    top.set_field(&both, zero.clone());
    let mut leaf = JvmObject::new(2, "Leaf".to_string(), DebugLevel::Info);
    leaf.set_field(&both, zero.clone());
    leaf.set_super(top);

    // a field of a superclass part is found through the object
    assert_eq!(leaf.get_field(&top_name), None);
    assert_eq!(leaf.find_field(&top_name), Some(zero.clone()));
    leaf.assign_field(&top_name, one.clone());
    assert_eq!(leaf.get_field(&top_name), None);
    assert_eq!(leaf.find_field(&top_name), Some(one.clone()));

    // the object's own field hides that of a superclass part
    leaf.assign_field(&both, two.clone());
    assert_eq!(leaf.get_field(&both), Some(two.clone()));
    assert_eq!(leaf.find_field(&both), Some(two.clone()));

    // a field that nobody holds is put into the object's own table
    assert_eq!(leaf.find_field(&fresh), None);
    leaf.assign_field(&fresh, one.clone());
    assert_eq!(leaf.get_field(&fresh), Some(one));
    assert_eq!(leaf.hierarchy(), "Leaf, Top");
}

#[test]
fn instantiate_gives_fields_their_defaults() {
    let class = Class::load_from_bytes(sample()).unwrap();
    let mut object = JvmObject::new(0, "Sample".to_string(), DebugLevel::Error);
    object.set_field(&"kept".to_string(), create_null_value());
    assert_eq!(object.instantiate(&class), Ok(()));
    match object.get_field(&"count".to_string()) {
        Some(JvmValue::Primitive(JvmPrimitiveType::Integer, 0, 0x0009)) => {}
        other => panic!("unexpected field value {:?}", other),
    }
    assert_eq!(object.get_field(&"kept".to_string()), Some(create_null_value()));
}

#[test]
fn instantiate_fails_on_a_field_without_proper_descriptor() {
    // the field's descriptor slot holds the text "run", which names no type
    let mut bytes = sample();
    let at = bytes.len() - 2 - (2 + 8 + 6 + 13) - 4;
    assert_eq!(&bytes[at..at + 2], &[0, 7]);
    bytes[at + 1] = 8;
    let class = Class::load_from_bytes(bytes).unwrap();
    let mut object = JvmObject::new(0, "Sample".to_string(), DebugLevel::Error);
    object.set_field(&"kept".to_string(), create_null_value());
    assert_eq!(object.instantiate(&class), Err(FatalErrorType::InvalidFieldType(b'r')));
    assert_eq!(object.get_field(&"count".to_string()), None);
    assert_eq!(object.get_field(&"kept".to_string()), Some(create_null_value()));

    // the field's name slot holds a class entry
    let mut bytes = sample();
    bytes[at - 1] = 2;
    let class = Class::load_from_bytes(bytes).unwrap();
    let mut object = JvmObject::new(0, "Sample".to_string(), DebugLevel::Error);
    assert_eq!(
        object.instantiate(&class),
        Err(FatalErrorType::InvalidConstantReference("Sample".to_string(), "Utf8", 2))
    );
}

#[test]
fn class_path_keeps_one_place_for_each_class() {
    let mut classpath = ClassPath::new(DebugLevel::Warning);
    assert_eq!(classpath.class_location_for_class("A"), None);
    classpath.insert("A".to_string(), ClassLocation::ClassFile("a.class".to_string()));
    classpath.insert(
        "B".to_string(),
        ClassLocation::JarFile("lib.jar".to_string(), "B.class".to_string()),
    );
    assert_eq!(
        classpath.class_location_for_class("A"),
        Some(ClassLocation::ClassFile("a.class".to_string()))
    );
    classpath.insert("A".to_string(), ClassLocation::ClassFile("other/a.class".to_string()));
    assert_eq!(
        classpath.class_location_for_class("A"),
        Some(ClassLocation::ClassFile("other/a.class".to_string()))
    );
    assert_eq!(
        classpath.class_location_for_class("B"),
        Some(ClassLocation::JarFile("lib.jar".to_string(), "B.class".to_string()))
    );
    classpath.remove(&"A".to_string());
    assert_eq!(classpath.class_location_for_class("A"), None);
    classpath.remove(&"A".to_string());
    assert!(classpath.class_location_for_class("B").is_some());

    let environment = Environment::new(classpath, vec!["one".to_string()]);
    assert_eq!(environment.arguments, vec!["one".to_string()]);
    assert!(environment.class_location_for_class("B").is_some());
    assert!(environment.class_location_for_class("A").is_none());
}

#[test]
fn frames_and_stacks_start_empty() {
    let frame = Frame::new();
    assert!(frame.operand_stack.is_empty());
    assert!(frame.locals.is_empty());
    assert_eq!(frame.class(), None);
    assert_eq!((frame.method, frame.pc, frame.initializer), (0, 0, false));
    let mut stack = Stack::new();
    assert_eq!(stack.depth(), 0);
    assert!(stack.pop().is_none());
    let mut first = Frame::new();
    first.pc = 1;
    let mut second = Frame::new();
    second.pc = 2;
    stack.push(first);
    stack.push(second);
    assert_eq!(stack.depth(), 2);
    assert_eq!(stack.pop().unwrap().pc, 2);
    assert_eq!(stack.pop().unwrap().pc, 1);
    assert!(stack.pop().is_none());
}

#[test]
fn errors_carry_what_they_were_made_with() {
    let fatal = FatalError::new(FatalErrorType::ClassNotFound("X".to_string()));
    assert_eq!(fatal.error, FatalErrorType::ClassNotFound("X".to_string()));
    assert_eq!(fatal.error.clone(), fatal.error);
    let small = NonFatalError::new(NonFatalErrorType::NotImplemented("Native methods"));
    assert_eq!(small.error, NonFatalErrorType::NotImplemented("Native methods"));
    let all = vec![
        FatalErrorType::MethodNotFound("m".to_string(), "c".to_string()),
        FatalErrorType::CouldNotLock("a", "b"),
        FatalErrorType::ClassNotLoaded("c".to_string()),
        FatalErrorType::ClassInstantiationFailed("c".to_string()),
        FatalErrorType::ClassResolutionFailed("c".to_string()),
        FatalErrorType::ClassNoName,
        FatalErrorType::WrongType("a", "b"),
        FatalErrorType::NotEnough("a", 1, "b"),
        FatalErrorType::MethodResolutionFailed,
        FatalErrorType::MethodSelectionFailed,
        FatalErrorType::MainMethodNotPublicStatic,
        FatalErrorType::MainMethodNotVoid,
        FatalErrorType::InvalidFieldType(b'Q'),
        FatalErrorType::UninitializedField("f".to_string(), "c".to_string()),
        FatalErrorType::FieldNotFound("f".to_string(), "c".to_string()),
        FatalErrorType::InvalidMethodDescriptor,
        FatalErrorType::InvalidConstantReference("c".to_string(), "Utf8", 3),
        FatalErrorType::VoidMethodReturnedValue,
        FatalErrorType::ClassInitMethodReturnedValue,
        FatalErrorType::RecursiveClassInitialization("a".to_string(), "b".to_string()),
        FatalErrorType::MethodExecutionFailed("m".to_string()),
        FatalErrorType::NotImplemented("x"),
        FatalErrorType::UnknownOpcode(0),
        FatalErrorType::InvalidProgramCounter(9),
        FatalErrorType::RequiredStackValueNotFound("x"),
        FatalErrorType::Exception(jvm::error::ExceptionKind::NullPointer),
    ];
    for error in &all {
        assert_eq!(error.clone(), *error);
    }
    for (i, left) in all.iter().enumerate() {
        for (j, right) in all.iter().enumerate() {
            assert_eq!(i == j, left == right);
        }
    }
}

#[test]
fn machine_front_ends_are_made() {
    let jvm = Jvm::new(DebugLevel::Info).unwrap();
    assert_eq!(jvm.debug_level, DebugLevel::Info);
    let environment = Environment::new(ClassPath::new(DebugLevel::Info), Vec::new());
    let (area, thread) = jvm.prepare(environment);
    assert_eq!(area.class_count(), 0);
    assert_eq!(thread.depth(), 0);
    assert_eq!(thread.debug_level(), DebugLevel::Info);
    assert!(Vm::new(true).debug);
    assert!(!Vm::new(false).debug);
    assert_eq!(DebugLevel::Verbose.level(), 0);
    assert_eq!(DebugLevel::Error.level(), 3);
    assert!(DebugLevel::Warning.admits(DebugLevel::Info));
    assert!(!DebugLevel::Info.admits(DebugLevel::Warning));
}
