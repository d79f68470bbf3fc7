use vmm::error::PauseMicrovmError;
use vmm::snapshot::{
    build_snapshot_state, create_snapshot_translator, current_version, deserialize_state, open_snapshot,
    serialize_state, DecodeError, Error, IdentitySnapshotTranslator, MicrovmState, SnapshotHdr, SnapshotTranslator,
    Version, VmInfo, HEADER_LEN, MIB, SNAPSHOT_MAGIC,
};
use vmm::vcpu::VcpuResponse;

fn sample_state() -> MicrovmState {
    MicrovmState {
        header: SnapshotHdr {
            magic: SNAPSHOT_MAGIC,
            version: Version::new(1, 0, 0),
            vm_info: VmInfo { mem_size_mib: 128, vcpu_count: 2 },
        },
        vm_state: vec![1, 2, 3, 4, 5],
        vcpu_states: vec![vec![10; 16], vec![20; 16]],
    }
}

#[test]
fn test_create_snapshot_translator() {
    assert!(create_snapshot_translator(Version::new(1, 0, 0), Version::new(1, 0, 0)).is_ok());
    let ret = create_snapshot_translator(Version::new(0, 0, 0), Version::new(1, 0, 0));
    assert_eq!(
        ret.err(),
        Some(Error::UnimplementedSnapshotTranslator((Version::new(0, 0, 0), Version::new(1, 0, 0))))
    );
    assert!(create_snapshot_translator(Version::new(1, 2, 3), Version::new(1, 0, 7)).is_ok());
}

#[test]
fn test_snapshot_translators() {
    let translator = create_snapshot_translator(current_version(), Version::new(1, 4, 0)).unwrap();
    let state = sample_state();
    let bytes = translator.serialize(&state).unwrap();
    let back = translator.deserialize(&bytes).unwrap();
    assert_eq!(back, state);
    // And back to bytes, byte for byte.
    assert_eq!(translator.serialize(&back).unwrap(), bytes);
}

#[test]
fn snapshot_layout_bytes() {
    let bytes = serialize_state(&sample_state()).unwrap();
    assert_eq!(bytes.len() as u64, HEADER_LEN + (8 + 5) + 2 * (8 + 16));
    assert_eq!(&bytes[0..8], &SNAPSHOT_MAGIC.to_le_bytes());
    assert_eq!(&bytes[8..16], &1u64.to_le_bytes());
    assert_eq!(&bytes[32..40], &128u64.to_le_bytes());
    assert_eq!(&bytes[40..48], &2u64.to_le_bytes());
    assert_eq!(&bytes[48..56], &5u64.to_le_bytes());
    assert_eq!(&bytes[56..61], &[1, 2, 3, 4, 5]);
    assert_eq!(&bytes[61..69], &16u64.to_le_bytes());
}

#[test]
fn test_invalid_binary_snapshots() {
    let translator = IdentitySnapshotTranslator {};
    let bytes = serialize_state(&sample_state()).unwrap();

    // Truncated.
    let truncated = &bytes[..bytes.len() / 2];
    assert_eq!(translator.deserialize(truncated).err(), Some(Error::Deserialize(DecodeError::UnexpectedEof)));
    for k in 0..bytes.len() {
        assert_eq!(deserialize_state(&bytes[..k]).err(), Some(DecodeError::UnexpectedEof));
    }

    // Extended: trailing bytes are not read.
    let mut extended = bytes.clone();
    extended.extend_from_slice(&[42u8; 100]);
    assert_eq!(translator.deserialize(&extended).unwrap(), sample_state());

    // The length of the VM state blob set to zero.
    let mut corrupt = bytes.clone();
    corrupt[48..56].copy_from_slice(&[0u8; 8]);
    assert_eq!(translator.deserialize(&corrupt).err(), Some(Error::Deserialize(DecodeError::IncompleteBuffer(0))));
}

#[test]
fn serialize_refuses_invalid_states() {
    let mut s = sample_state();
    s.vm_state.clear();
    assert_eq!(serialize_state(&s), Err(Error::Serialize));
    let mut s = sample_state();
    s.header.vm_info.vcpu_count = 3;
    assert_eq!(serialize_state(&s), Err(Error::Serialize));
    let mut s = sample_state();
    s.vcpu_states[1].clear();
    assert_eq!(serialize_state(&s), Err(Error::Serialize));
}

#[test]
fn pause_to_snapshot_builds_state() {
    let responses = vec![
        Some(VcpuResponse::PausedToSnapshot(vec![7; 32])),
        Some(VcpuResponse::PausedToSnapshot(vec![8; 32])),
    ];
    let state = build_snapshot_state(current_version(), 128, vec![9; 64], responses).unwrap();
    assert_eq!(state.header.vm_info.vcpu_count, 2);
    assert_eq!(state.header.magic, SNAPSHOT_MAGIC);
    let bytes = serialize_state(&state).unwrap();
    // header + VM state + vCPU states; the guest memory follows in the file.
    assert_eq!(bytes.len() as u64, HEADER_LEN + (8 + 64) + 2 * (8 + 32));
    let file_len = bytes.len() as u64 + 128 * MIB;
    assert!(file_len >= 128 * MIB + HEADER_LEN);
    let opened = open_snapshot(&bytes, file_len, current_version()).unwrap();
    assert_eq!(opened, state);
    // A file too short for the memory is refused.
    assert!(open_snapshot(&bytes, file_len - 1, current_version()).is_err());
    // A different major version is refused.
    assert!(open_snapshot(&bytes, file_len, Version::new(2, 0, 0)).is_err());
}

#[test]
fn pause_to_snapshot_failures() {
    let timeout = vec![Some(VcpuResponse::PausedToSnapshot(vec![1])), None];
    assert_eq!(build_snapshot_state(current_version(), 128, vec![1], timeout).err(), Some(PauseMicrovmError::VcpuPause));
    let failed = vec![Some(VcpuResponse::PausedToSnapshot(vec![1])), Some(VcpuResponse::SaveStateFailed)];
    assert_eq!(build_snapshot_state(current_version(), 128, vec![1], failed).err(), Some(PauseMicrovmError::SaveVcpuState));
    let empty = vec![Some(VcpuResponse::PausedToSnapshot(vec![]))];
    assert_eq!(build_snapshot_state(current_version(), 128, vec![1], empty).err(), Some(PauseMicrovmError::SerializeVcpu));
}
