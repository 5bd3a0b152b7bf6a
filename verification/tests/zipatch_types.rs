use gaveloc::zipatch::{
    AddDirectoryChunk, ApplyFreeSpaceChunk, ApplyOption, ApplyOptionChunk, DeleteDirectoryChunk,
    FileHeaderChunk, IndexType, Platform, SqpackFileTarget, SqpkAddData, SqpkChunk, SqpkDeleteData,
    SqpkExpandData, SqpkFile, SqpkFileKind, SqpkFileOperation, SqpkHeader, SqpkHeaderKind, SqpkIndex,
    SqpkPatchInfo, SqpkTargetInfo, ZiPatchChunk, ZIPATCH_MAGIC,
};

#[test]
fn test_magic_header() {
    assert_eq!(ZIPATCH_MAGIC.len(), 12);
    assert_eq!(ZIPATCH_MAGIC[0], 0x91);
    assert_eq!(&ZIPATCH_MAGIC[1..8], b"ZIPATCH");
    assert_eq!(&ZIPATCH_MAGIC[8..], &[0x0D, 0x0A, 0x1A, 0x0A]);
}

#[test]
fn test_sqpack_file_target_expansion() {
    let target = SqpackFileTarget {
        main_id: 0x04,
        sub_id: 0x0100, // expansion 1
        file_id: 0,
    };
    assert_eq!(target.expansion_id(), 1);
    assert_eq!(target.expansion_folder(), "ex1");
}

#[test]
fn test_sqpack_file_target_dat_path() {
    let target = SqpackFileTarget {
        main_id: 0x04,
        sub_id: 0x0000, // base game
        file_id: 0,
    };
    assert_eq!(
        target.dat_path(Platform::Win32),
        "sqpack/ffxiv/040000.win32.dat0"
    );
}

#[test]
fn test_sqpack_file_target_paths_with_wide_numbers() {
    let target = SqpackFileTarget {
        main_id: 0x1ab,
        sub_id: 0x05ff,
        file_id: 12,
    };
    assert_eq!(target.dat_path(Platform::Ps4), "sqpack/ex5/1ab05ff.ps4.dat12");
    assert_eq!(
        target.index_path(Platform::Ps3, IndexType::Index2),
        "sqpack/ex5/1ab05ff.ps3.index2"
    );
    assert_eq!(target.to_string(), "1ab05ff.dat12");
    let top = SqpackFileTarget {
        main_id: u16::MAX,
        sub_id: u16::MAX,
        file_id: u32::MAX,
    };
    assert_eq!(top.dat_path(Platform::Win32), "sqpack/ffxiv/ffffffff.win32.dat4294967295");
    assert_eq!(top.expansion_id(), 255);
}

#[test]
fn test_apply_option_from() {
    assert_eq!(ApplyOption::from(1), ApplyOption::IgnoreMissing);
    assert_eq!(ApplyOption::from(2), ApplyOption::IgnoreOldMismatch);
    assert!(matches!(ApplyOption::from(99), ApplyOption::Unknown(99)));
    assert!(matches!(ApplyOption::from(0), ApplyOption::Unknown(0)));
}

#[test]
fn test_sqpk_file_kind_from() {
    assert_eq!(SqpkFileKind::from(b'D'), SqpkFileKind::Dat);
    assert_eq!(SqpkFileKind::from(b'I'), SqpkFileKind::Index);
    assert!(matches!(SqpkFileKind::from(b'X'), SqpkFileKind::Unknown(b'X')));
}

#[test]
fn test_sqpk_file_operation_from() {
    assert_eq!(SqpkFileOperation::from(b'A'), SqpkFileOperation::AddFile);
    assert_eq!(SqpkFileOperation::from(b'R'), SqpkFileOperation::RemoveAll);
    assert_eq!(SqpkFileOperation::from(b'M'), SqpkFileOperation::MakeDir);
}

#[test]
fn test_platform_display() {
    assert_eq!(Platform::Win32.to_string(), "win32");
    assert_eq!(Platform::Ps4.to_string(), "ps4");
}

#[test]
fn test_chunk_type() {
    let chunk = ZiPatchChunk::EndOfFile;
    assert_eq!(chunk.chunk_type(), "EOF_");

    let chunk = ZiPatchChunk::AddDirectory(AddDirectoryChunk {
        path: "/test".to_string(),
        offset: 0,
    });
    assert_eq!(chunk.chunk_type(), "ADIR");
}

#[test]
fn test_sqpk_command() {
    let chunk = SqpkChunk::PatchInfo(SqpkPatchInfo {
        status: 0,
        version: 1,
        install_size: 0,
        offset: 0,
    });
    assert_eq!(chunk.command(), "X");
}

#[test]
fn test_platform_default() {
    assert_eq!(Platform::default(), Platform::Win32);
}

#[test]
fn test_platform_display_all() {
    assert_eq!(Platform::Win32.to_string(), "win32");
    assert_eq!(Platform::Ps3.to_string(), "ps3");
    assert_eq!(Platform::Ps4.to_string(), "ps4");
}

#[test]
fn test_platform_from_byte() {
    assert_eq!(Platform::from_byte(0), Platform::Win32);
    assert_eq!(Platform::from_byte(1), Platform::Ps3);
    assert_eq!(Platform::from_byte(2), Platform::Ps4);
    assert_eq!(Platform::from_byte(3), Platform::Win32);
    assert_eq!(Platform::from_byte(255), Platform::Win32);
}

#[test]
fn test_chunk_type_all_variants() {
    // FileHeader
    assert_eq!(
        ZiPatchChunk::FileHeader(FileHeaderChunk {
            version: 1,
            patch_type: "DIFF".to_string(),
            entry_files: 0,
            offset: 0,
        })
        .chunk_type(),
        "FHDR"
    );

    // ApplyOption
    assert_eq!(
        ZiPatchChunk::ApplyOption(ApplyOptionChunk {
            option: ApplyOption::IgnoreMissing,
            value: 1,
            offset: 0,
        })
        .chunk_type(),
        "APLY"
    );

    // DeleteDirectory
    assert_eq!(
        ZiPatchChunk::DeleteDirectory(DeleteDirectoryChunk {
            path: "/test".to_string(),
            offset: 0,
        })
        .chunk_type(),
        "DELD"
    );

    // ApplyFreeSpace
    assert_eq!(
        ZiPatchChunk::ApplyFreeSpace(ApplyFreeSpaceChunk {
            alloc_size: 1024,
            offset: 0,
        })
        .chunk_type(),
        "APFS"
    );

    // Sqpk
    assert_eq!(
        ZiPatchChunk::Sqpk(SqpkChunk::PatchInfo(SqpkPatchInfo {
            status: 0,
            version: 0,
            install_size: 0,
            offset: 0,
        }))
        .chunk_type(),
        "SQPK"
    );

    // Unknown
    assert_eq!(
        ZiPatchChunk::Unknown {
            chunk_type: "TEST".to_string(),
            offset: 0,
            size: 0,
        }
        .chunk_type(),
        "TEST"
    );
}

#[test]
fn test_sqpk_command_all_variants() {
    // AddData
    assert_eq!(
        SqpkChunk::AddData(SqpkAddData {
            target_file: SqpackFileTarget {
                main_id: 0,
                sub_id: 0,
                file_id: 0
            },
            block_offset: 0,
            block_number: 0,
            block_delete_number: 0,
            block_data: vec![],
            data_source_offset: 0,
            offset: 0,
        })
        .command(),
        "A"
    );

    // DeleteData
    assert_eq!(
        SqpkChunk::DeleteData(SqpkDeleteData {
            target_file: SqpackFileTarget {
                main_id: 0,
                sub_id: 0,
                file_id: 0
            },
            block_offset: 0,
            block_number: 0,
            offset: 0,
        })
        .command(),
        "D"
    );

    // ExpandData
    assert_eq!(
        SqpkChunk::ExpandData(SqpkExpandData {
            target_file: SqpackFileTarget {
                main_id: 0,
                sub_id: 0,
                file_id: 0
            },
            block_offset: 0,
            block_number: 0,
            offset: 0,
        })
        .command(),
        "E"
    );

    // Header
    assert_eq!(
        SqpkChunk::Header(SqpkHeader {
            file_kind: SqpkFileKind::Dat,
            header_kind: SqpkHeaderKind::Version,
            target_file: SqpackFileTarget {
                main_id: 0,
                sub_id: 0,
                file_id: 0
            },
            header_data: vec![],
            offset: 0,
        })
        .command(),
        "H"
    );

    // Index
    assert_eq!(
        SqpkChunk::Index(SqpkIndex {
            index_type: IndexType::Index,
            is_synonym: false,
            target_file: SqpackFileTarget {
                main_id: 0,
                sub_id: 0,
                file_id: 0
            },
            index_data: vec![],
            offset: 0,
        })
        .command(),
        "I"
    );

    // File
    assert_eq!(
        SqpkChunk::File(SqpkFile {
            operation: SqpkFileOperation::AddFile,
            expansion_id: 0,
            file_path: String::new(),
            file_data: vec![],
            offset: 0,
        })
        .command(),
        "F"
    );

    // TargetInfo
    assert_eq!(
        SqpkChunk::TargetInfo(SqpkTargetInfo {
            platform: Platform::Win32,
            region: 0,
            is_debug: false,
            version: 0,
            deleted_data_size: 0,
            seek_count: 0,
            offset: 0,
        })
        .command(),
        "T"
    );

    // Unknown
    assert_eq!(
        SqpkChunk::Unknown {
            command: "Z".to_string(),
            offset: 0
        }
        .command(),
        "Z"
    );
}

#[test]
fn test_sqpack_file_target_all_expansions() {
    // Base game
    let target = SqpackFileTarget {
        main_id: 0,
        sub_id: 0x0000,
        file_id: 0,
    };
    assert_eq!(target.expansion_folder(), "ffxiv");

    // Expansion 2-5
    for (exp, folder) in [(2, "ex2"), (3, "ex3"), (4, "ex4"), (5, "ex5")] {
        let target = SqpackFileTarget {
            main_id: 0,
            sub_id: (exp << 8) as u16,
            file_id: 0,
        };
        assert_eq!(target.expansion_folder(), folder);
    }

    // Unknown expansion falls back to ffxiv
    let target = SqpackFileTarget {
        main_id: 0,
        sub_id: 0x0F00, // expansion 15
        file_id: 0,
    };
    assert_eq!(target.expansion_folder(), "ffxiv");
}

#[test]
fn test_sqpack_file_target_index_path() {
    let target = SqpackFileTarget {
        main_id: 0x04,
        sub_id: 0x0100,
        file_id: 0,
    };
    assert_eq!(
        target.index_path(Platform::Win32, IndexType::Index),
        "sqpack/ex1/040100.win32.index"
    );
    assert_eq!(
        target.index_path(Platform::Win32, IndexType::Index2),
        "sqpack/ex1/040100.win32.index2"
    );
}

#[test]
fn test_sqpack_file_target_display() {
    let target = SqpackFileTarget {
        main_id: 0x04,
        sub_id: 0x0100,
        file_id: 5,
    };
    assert_eq!(format!("{}", target.to_string()), "040100.dat5");
}

#[test]
fn test_sqpk_header_kind_from() {
    assert_eq!(SqpkHeaderKind::from(b'V'), SqpkHeaderKind::Version);
    assert_eq!(SqpkHeaderKind::from(b'I'), SqpkHeaderKind::Index);
    assert_eq!(SqpkHeaderKind::from(b'D'), SqpkHeaderKind::Data);
    assert!(matches!(
        SqpkHeaderKind::from(b'X'),
        SqpkHeaderKind::Unknown(b'X')
    ));
}

#[test]
fn test_sqpk_file_operation_delete_file() {
    assert_eq!(SqpkFileOperation::from(b'D'), SqpkFileOperation::DeleteFile);
}

#[test]
fn test_sqpk_file_operation_unknown() {
    assert!(matches!(
        SqpkFileOperation::from(b'Z'),
        SqpkFileOperation::Unknown(b'Z')
    ));
}
