use gpu_backend::kernel::args::{
    AddressQualifier, InternalKernelArg, InternalKernelArgType, KernelArg, KernelArgType,
    SPIRVKernelArg,
};
use gpu_backend::kernel::blob::{Blob, BlobReader};
use gpu_backend::kernel::kernel::SPIRVToNirResult;

fn spirv(name: &str, ty: &str, address_qualifier: AddressQualifier) -> SPIRVKernelArg {
    SPIRVKernelArg {
        name: name.as_bytes().to_vec(),
        ty_name: ty.as_bytes().to_vec(),
        access_qualifier: 0,
        address_qualifier,
        type_qualifier: 0,
    }
}

fn sample_args() -> Vec<KernelArg> {
    vec![
        KernelArg {
            spirv: spirv("a", "int*", AddressQualifier::Global),
            kind: KernelArgType::MemGlobal,
            size: 8,
            offset: 0,
            binding: 0,
            dead: false,
        },
        KernelArg {
            spirv: SPIRVKernelArg {
                name: "img".as_bytes().to_vec(),
                ty_name: "image2d_t".as_bytes().to_vec(),
                access_qualifier: 1,
                address_qualifier: AddressQualifier::Global,
                type_qualifier: 0x0102_0304,
            },
            kind: KernelArgType::Texture,
            size: 0x1234,
            offset: 0xabcd,
            binding: 7,
            dead: true,
        },
    ]
}

fn sample_internal_args() -> Vec<InternalKernelArg> {
    vec![
        InternalKernelArg {
            kind: InternalKernelArgType::InlineSampler((0x1131, 0x1140, true)),
            size: 0,
            offset: 0,
        },
        InternalKernelArg { kind: InternalKernelArgType::GlobalWorkOffsets, size: 24, offset: 32 },
        InternalKernelArg { kind: InternalKernelArgType::WorkDim, size: 1, offset: 56 },
    ]
}

fn to_bytes(args: &[KernelArg]) -> Vec<u8> {
    let mut blob = Blob::new();
    KernelArg::serialize(args, &mut blob);
    blob.into_bytes()
}

fn internal_to_bytes(args: &[InternalKernelArg]) -> Vec<u8> {
    let mut blob = Blob::new();
    InternalKernelArg::serialize(args, &mut blob);
    blob.into_bytes()
}

#[test]
fn blob_fields_are_little_endian() {
    let mut blob = Blob::new();
    blob.write_uint8(0x12);
    blob.write_uint16(0x3456);
    blob.write_uint32(0x789a_bcde);
    blob.write_bytes(&[1, 2, 3]);
    let bytes = blob.into_bytes();
    assert_eq!(bytes, vec![0x12, 0x56, 0x34, 0xde, 0xbc, 0x9a, 0x78, 1, 2, 3]);
    let mut r = BlobReader::new(&bytes);
    assert_eq!(r.read_uint8(), Some(0x12));
    assert_eq!(r.read_uint16(), Some(0x3456));
    assert_eq!(r.read_uint32(), Some(0x789a_bcde));
    assert_eq!(r.read_bytes(2), Some(vec![1, 2]));
    // a read past the end fails and leaves the cursor in place
    assert_eq!(r.read_uint16(), None);
    assert_eq!(r.read_bytes(5), None);
    assert_eq!(r.pos, 9);
    assert_eq!(r.read_uint8(), Some(3));
    assert_eq!(r.read_uint8(), None);
    assert_eq!(r.read_bytes(0), Some(vec![]));
}

#[test]
fn kernel_arg_bytes() {
    let bytes = to_bytes(&sample_args()[..1]);
    assert_eq!(
        bytes,
        vec![
            1, 0, // one entry
            0, 0, 0, 0, // access qualifier
            0, 0, 0, 0, // type qualifier
            1, 0, // length of the name
            4, 0, // length of the type name
            b'a', b'i', b'n', b't', b'*', // the names
            3,    // global
            8, 0, // size
            0, 0, // offset
            0, 0, // binding
            0,    // alive
            5,    // a pointer to global memory
        ]
    );
}

#[test]
fn kernel_args_round_trip() {
    let args = sample_args();
    let mut bytes = to_bytes(&args);
    assert_eq!(KernelArg::deserialize(&mut BlobReader::new(&bytes)), Some(args.clone()));
    // what follows the list does not matter
    bytes.extend_from_slice(&[0xff; 9]);
    let mut r = BlobReader::new(&bytes);
    assert_eq!(KernelArg::deserialize(&mut r), Some(args));
    assert_eq!(r.pos, bytes.len() - 9);
    assert_eq!(KernelArg::deserialize(&mut BlobReader::new(&to_bytes(&[]))), Some(vec![]));
}

#[test]
fn wide_fields_keep_their_low_sixteen_bits() {
    let mut args = sample_args();
    args[0].size = 0x1_0008;
    args[0].binding = 0x2_0003;
    let read = KernelArg::deserialize(&mut BlobReader::new(&to_bytes(&args))).unwrap();
    assert_eq!(read[0].size, 8);
    assert_eq!(read[0].binding, 3);
    assert_eq!(read[1], args[1]);
}

#[test]
fn truncated_kernel_args_give_none() {
    let bytes = to_bytes(&sample_args());
    for n in 0..bytes.len() {
        assert_eq!(KernelArg::deserialize(&mut BlobReader::new(&bytes[..n])), None, "cut at {}", n);
    }
}

#[test]
fn unknown_kind_gives_none() {
    let args = sample_args();
    let mut bytes = to_bytes(&args[..1]);
    let last = bytes.len() - 1;
    for kind in 0..=7u8 {
        bytes[last] = kind;
        assert!(KernelArg::deserialize(&mut BlobReader::new(&bytes)).is_some());
    }
    for kind in [8u8, 9, 0x80, 0xff] {
        bytes[last] = kind;
        assert_eq!(KernelArg::deserialize(&mut BlobReader::new(&bytes)), None);
    }
    // the address qualifier is the byte after the names
    let mut bytes = to_bytes(&args[..1]);
    bytes[19] = 4;
    assert_eq!(KernelArg::deserialize(&mut BlobReader::new(&bytes)), None);
}

#[test]
fn kind_tags() {
    let kinds = [
        KernelArgType::Constant,
        KernelArgType::Image,
        KernelArgType::RWImage,
        KernelArgType::Sampler,
        KernelArgType::Texture,
        KernelArgType::MemGlobal,
        KernelArgType::MemConstant,
        KernelArgType::MemLocal,
    ];
    for (i, k) in kinds.iter().enumerate() {
        assert_eq!(k.to_u8(), i as u8);
        assert_eq!(KernelArgType::from_u8(i as u8), Some(*k));
    }
    assert_eq!(KernelArgType::from_u8(8), None);
    let quals = [
        AddressQualifier::Private,
        AddressQualifier::Constant,
        AddressQualifier::Local,
        AddressQualifier::Global,
    ];
    for (i, q) in quals.iter().enumerate() {
        assert_eq!(q.to_u8(), i as u8);
        assert_eq!(AddressQualifier::from_u8(i as u8), Some(*q));
    }
    assert_eq!(AddressQualifier::from_u8(4), None);
}

#[test]
fn internal_arg_bytes() {
    let bytes = internal_to_bytes(&sample_internal_args());
    assert_eq!(
        bytes,
        vec![
            3, 0, // three entries
            0, 0, 0, 0, 3, 1, 0x31, 0x11, 0, 0, 0x40, 0x11, 0, 0, // an inline sampler
            24, 0, 32, 0, 1, // global work offsets
            1, 0, 56, 0, 6, // work dimension
        ]
    );
}

#[test]
fn internal_args_round_trip() {
    let all = vec![
        InternalKernelArg { kind: InternalKernelArgType::ConstantBuffer, size: 8, offset: 0 },
        InternalKernelArg { kind: InternalKernelArgType::GlobalWorkOffsets, size: 24, offset: 8 },
        InternalKernelArg { kind: InternalKernelArgType::PrintfBuffer, size: 8, offset: 32 },
        InternalKernelArg {
            kind: InternalKernelArgType::InlineSampler((0x1134, 0x1141, false)),
            size: 0,
            offset: 0,
        },
        InternalKernelArg { kind: InternalKernelArgType::FormatArray, size: 4, offset: 40 },
        InternalKernelArg { kind: InternalKernelArgType::OrderArray, size: 4, offset: 44 },
        InternalKernelArg { kind: InternalKernelArgType::WorkDim, size: 1, offset: 48 },
        InternalKernelArg { kind: InternalKernelArgType::WorkGroupOffsets, size: 24, offset: 56 },
        InternalKernelArg { kind: InternalKernelArgType::NumWorkgroups, size: 12, offset: 80 },
    ];
    let bytes = internal_to_bytes(&all);
    assert_eq!(InternalKernelArg::deserialize(&mut BlobReader::new(&bytes)), Some(all));
    for n in 0..bytes.len() {
        assert_eq!(InternalKernelArg::deserialize(&mut BlobReader::new(&bytes[..n])), None);
    }
}

#[test]
fn unknown_internal_kind_gives_none() {
    let mut bytes = internal_to_bytes(&sample_internal_args()[1..2]);
    assert_eq!(bytes.len(), 7);
    bytes[6] = 9;
    assert_eq!(InternalKernelArg::deserialize(&mut BlobReader::new(&bytes)), None);
    bytes[6] = 8;
    assert_eq!(
        InternalKernelArg::deserialize(&mut BlobReader::new(&bytes)),
        Some(vec![InternalKernelArg { kind: InternalKernelArgType::NumWorkgroups, size: 24, offset: 32 }])
    );
}

#[test]
fn cache_entry_holds_both_lists() {
    let args = sample_args();
    let internal = sample_internal_args();
    let mut blob = Blob::new();
    blob.write_bytes(b"shader");
    SPIRVToNirResult::serialize(&mut blob, &args, &internal);
    let bytes = blob.into_bytes();
    let mut expected = b"shader".to_vec();
    expected.extend_from_slice(&to_bytes(&args));
    expected.extend_from_slice(&internal_to_bytes(&internal));
    assert_eq!(bytes, expected);
    let mut r = BlobReader::new(&bytes);
    assert_eq!(r.read_bytes(6), Some(b"shader".to_vec()));
    assert_eq!(SPIRVToNirResult::deserialize(&mut r), Some((args, internal)));
    assert_eq!(r.pos, bytes.len());
    // a corrupt entry is a miss
    let mut r = BlobReader::new(&bytes[..bytes.len() - 1]);
    assert_eq!(r.read_bytes(6), Some(b"shader".to_vec()));
    assert_eq!(SPIRVToNirResult::deserialize(&mut r), None);
}
