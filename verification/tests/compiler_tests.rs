use novavm::compiler::{
    compile_result, coverage_summary, generate_default_move_cli, CoverageOption, CoverageSummary,
    split_bytes, NovaCompilerArgument, NovaCompilerBuildConfig, NovaCompilerDisassembleOption,
    NovaCompilerDocgenOption, NovaCompilerExperimentalOption, NovaCompilerProveOption,
    NovaCompilerTestOption, NovaConcretizeMode, NovaExperimentalSubcommandType, ReadWriteSet,
};
use novavm::rust_error::RustError;

#[test]
fn split_like_str_split() {
    assert_eq!(split_bytes(b"a,b", b','), vec![b"a".to_vec(), b"b".to_vec()]);
    assert_eq!(split_bytes(b"", b','), vec![Vec::<u8>::new()]);
    assert_eq!(split_bytes(b"a,", b','), vec![b"a".to_vec(), Vec::new()]);
    assert_eq!(split_bytes(b",,x", b','), vec![Vec::new(), Vec::new(), b"x".to_vec()]);
    for text in ["x,y,,z", "", "nothing", ",", "a b c"] {
        let ours: Vec<Vec<u8>> = split_bytes(text.as_bytes(), b',');
        let std: Vec<Vec<u8>> = text.split(',').map(|s| s.as_bytes().to_vec()).collect();
        assert_eq!(ours, std);
        // joining the pieces gives the text back
        assert_eq!(ours.join(&b','), text.as_bytes().to_vec());
    }
}

fn build_config() -> NovaCompilerBuildConfig {
    NovaCompilerBuildConfig {
        dev_mode: true,
        test_mode: false,
        generate_docs: true,
        generate_abis: false,
        install_dir: Some(b"/tmp/out".to_vec()),
        force_recompilation: false,
        fetch_deps_only: true,
    }
}

#[test]
fn arguments_carry_over() {
    let args = NovaCompilerArgument {
        package_path: Some(b"pkg".to_vec()),
        verbose: true,
        build_config: build_config(),
    }
    .into_move_args();
    assert_eq!(args.package_path, Some(b"pkg".to_vec()));
    assert!(args.verbose);
    assert!(args.build_config.dev_mode);
    assert!(!args.build_config.test_mode);
    assert!(args.build_config.generate_docs);
    assert_eq!(args.build_config.install_dir, Some(b"/tmp/out".to_vec()));
    assert!(args.build_config.fetch_deps_only);
}

#[test]
fn zero_bound_means_none() {
    let opts = |bound| NovaCompilerTestOption {
        instruction_execution_bound: bound,
        filter: Some(b"coin".to_vec()),
        list: false,
        num_threads: 4,
        report_statistics: true,
        report_storage_on_error: false,
        ignore_compile_warnings: true,
        check_stackless_vm: false,
        verbose_mode: false,
        compute_coverage: true,
    };
    let t = opts(0).into_test_options();
    assert_eq!(t.instruction_execution_bound, None);
    assert_eq!(t.filter, Some(b"coin".to_vec()));
    assert_eq!(t.num_threads, 4);
    assert!(t.compute_coverage);
    assert_eq!(opts(500).into_test_options().instruction_execution_bound, Some(500));
}

#[test]
fn prover_options_split_at_spaces() {
    let p = NovaCompilerProveOption {
        target_filter: None,
        for_test: true,
        options: Some(b"--a 1".to_vec()),
    }
    .into_prove_options();
    assert_eq!(p.options, Some(vec![b"--a".to_vec(), b"1".to_vec()]));
    assert!(p.for_test);
    let p = NovaCompilerProveOption { target_filter: Some(b"m".to_vec()), for_test: false, options: None }
        .into_prove_options();
    assert_eq!(p.options, None);
    assert_eq!(p.target_filter, Some(b"m".to_vec()));
}

#[test]
fn docgen_defaults_and_templates() {
    let d = NovaCompilerDocgenOption {
        section_level_start: 0,
        exclude_private_fun: true,
        exclude_specs: false,
        independent_specs: false,
        exclude_impl: true,
        toc_depth: 3,
        no_collapsed_sections: false,
        output_directory: None,
        template: Some(b"a.md,b.md".to_vec()),
        references_file: Some(b"refs".to_vec()),
        include_dep_diagrams: true,
        include_call_diagrams: false,
        compile_relative_to_output_dir: false,
    }
    .into_docgen_options();
    assert_eq!(d.section_level_start, None);
    assert_eq!(d.toc_depth, Some(3));
    assert_eq!(d.template, vec![b"a.md".to_vec(), b"b.md".to_vec()]);
    assert_eq!(d.references_file, Some(b"refs".to_vec()));
    assert!(d.exclude_private_fun && d.exclude_impl && d.include_dep_diagrams);
}

#[test]
fn disassemble_and_read_write_set() {
    let d = NovaCompilerDisassembleOption {
        interactive: false,
        package_name: None,
        module_or_script_name: Some(b"coin".to_vec()),
    }
    .into_disassemble_options();
    assert_eq!(d.module_or_script_name, b"coin".to_vec());

    let cmd = NovaCompilerExperimentalOption {
        storage_dir: None,
        cmd_type: NovaExperimentalSubcommandType::SubcmdReadWriteSet,
        rws: ReadWriteSet {
            module_file: Some(b"m.mv".to_vec()),
            fun_name: Some(b"f".to_vec()),
            signers: Some(b"0x1,0x2".to_vec()),
            args: None,
            type_args: Some(b"u64".to_vec()),
            concretize: NovaConcretizeMode::Reads,
        },
    }
    .into_command();
    assert_eq!(cmd.storage_dir, None);
    assert_eq!(cmd.read_write_set.signers, vec![b"0x1".to_vec(), b"0x2".to_vec()]);
    assert_eq!(cmd.read_write_set.concretize, NovaConcretizeMode::Reads);
    assert_eq!(cmd.read_write_set.type_args, Some(b"u64".to_vec()));
}

#[test]
fn coverage_and_command_results() {
    match coverage_summary(CoverageOption::Summary, true, false, None) {
        CoverageSummary::Summary { functions, output_csv } => assert!(functions && !output_csv),
        _ => panic!("expected a summary"),
    }
    match coverage_summary(CoverageOption::Bytecode, false, false, Some(b"coin".to_vec())) {
        CoverageSummary::Bytecode { module_name } => assert_eq!(module_name, b"coin".to_vec()),
        _ => panic!("expected bytecode coverage"),
    }
    match coverage_summary(CoverageOption::Source, false, false, None) {
        CoverageSummary::Source { module_name } => assert!(module_name.is_empty()),
        _ => panic!("expected source coverage"),
    }
    let args = generate_default_move_cli(Some(b"pkg".to_vec()), false);
    assert_eq!(args.package_path, Some(b"pkg".to_vec()));
    assert!(!args.build_config.dev_mode && args.build_config.install_dir.is_none());
    assert_eq!(compile_result("build", Ok(())).unwrap(), b"ok".to_vec());
    match compile_result("build", Err("no Move.toml".to_string())) {
        Err(RustError::BackendFailure { msg }) => assert_eq!(msg, "failed to build: no Move.toml"),
        _ => panic!("expected a backend failure"),
    }
}

#[test]
fn command_names() {
    assert_eq!(novavm::compiler::CommandKind::Build.name(), "build");
    assert_eq!(novavm::compiler::CommandKind::MoveyUpload.name(), "movey upload");
    assert_eq!(novavm::compiler::CommandKind::Experimental.name(), "experimental");
}

#[test]
fn compiler_entry_results() {
    match novavm::compiler::move_compiler_result(Ok(())) {
        Ok(v) => assert_eq!(v, b"ok".to_vec()),
        r => panic!("unexpected result {:?}", r),
    }
    match novavm::compiler::move_compiler_result(Err("no package".to_string())) {
        Err(novavm::rust_error::RustError::VmErr { msg }) => assert_eq!(msg, "no package"),
        r => panic!("unexpected result {:?}", r),
    }
}
