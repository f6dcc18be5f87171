//! The options of the Move package commands as the host passes them over
//! the FFI, and how each becomes the options of the command it drives.
//! Text fields arrive as optional byte strings (absent is a null view).

use crate::rust_error::RustError;
use crate::text::join2;
use vstd::prelude::*;

verus! {

/// How coverage information is displayed.
#[derive(Debug, Clone, Copy, PartialEq, Eq, Structural)]
pub enum CoverageOption {
    /// Display a coverage summary for all modules in this package
    Summary,
    /// Display coverage information about the module against source code
    Source,
    /// Display coverage information about the module against disassembled bytecode
    Bytecode,
}

/// Package build options.
pub struct NovaCompilerBuildConfig {
    /// Compile in 'dev' mode. The 'dev-addresses' and 'dev-dependencies' fields will be used if
    /// this flag is set.
    pub dev_mode: bool,
    /// Compile in 'test' mode. The 'dev-addresses' and 'dev-dependencies' fields will be used
    /// along with any code in the 'tests' directory.
    pub test_mode: bool,
    /// Generate documentation for packages
    pub generate_docs: bool,
    /// Generate ABIs for packages
    pub generate_abis: bool,
    /// Installation directory for compiled artifacts. Defaults to current directory.
    pub install_dir: Option<Vec<u8>>,
    /// Force recompilation of all packages
    pub force_recompilation: bool,
    /// Only fetch dependency repos to MOVE_HOME
    pub fetch_deps_only: bool,
}

/// The arguments every package command takes.
pub struct NovaCompilerArgument {
    /// Path to a package which the command should be run with respect to.
    pub package_path: Option<Vec<u8>>,
    /// Print additional diagnostics if available.
    pub verbose: bool,
    /// Package build options
    pub build_config: NovaCompilerBuildConfig,
}

/// Options of `test`.
pub struct NovaCompilerTestOption {
    /// Bound the number of instructions that can be executed by any one test;
    /// 0 for no bound.
    pub instruction_execution_bound: u64,
    /// A filter string to determine which unit tests to run.
    pub filter: Option<Vec<u8>>,
    /// List all tests
    pub list: bool,
    /// Number of threads to use for running tests.
    pub num_threads: usize,
    /// Report test statistics at the end of testing
    pub report_statistics: bool,
    /// Show the storage state at the end of execution of a failing test
    pub report_storage_on_error: bool,
    /// Ignore compiler's warning, and continue run tests
    pub ignore_compile_warnings: bool,
    /// Use the stackless bytecode interpreter to run the tests and cross check its results with
    /// the execution result from Move VM.
    pub check_stackless_vm: bool,
    /// Verbose mode
    pub verbose_mode: bool,
    /// Collect coverage information for later use with the various `package coverage` subcommands
    pub compute_coverage: bool,
}

/// Options of `disassemble`.
pub struct NovaCompilerDisassembleOption {
    /// Start a disassembled bytecode-to-source explorer
    pub interactive: bool,
    /// The package name. If not provided defaults to current package modules only
    pub package_name: Option<Vec<u8>>,
    /// The name of the module or script in the package to disassemble
    pub module_or_script_name: Option<Vec<u8>>,
}

/// Options of `prove`.
pub struct NovaCompilerProveOption {
    /// The target filter used to prune the modules to verify.
    pub target_filter: Option<Vec<u8>>,
    /// Internal field indicating that this prover run is for a test.
    pub for_test: bool,
    /// Any options passed to the prover, separated by spaces.
    pub options: Option<Vec<u8>>,
}

/// Options of `docgen`.
pub struct NovaCompilerDocgenOption {
    /// The level where we start sectioning; 0 for the default.
    pub section_level_start: usize,
    /// Whether to exclude private functions in the generated docs
    pub exclude_private_fun: bool,
    /// Whether to exclude specifications in the generated docs
    pub exclude_specs: bool,
    /// Whether to put specifications in the same section as a declaration or put them all
    /// into an independent section
    pub independent_specs: bool,
    /// Whether to exclude Move implementations
    pub exclude_impl: bool,
    /// Max depth to which sections are displayed in table-of-contents; 0 for the default.
    pub toc_depth: usize,
    /// Do not use collapsed sections (<details>) for impl and specs
    pub no_collapsed_sections: bool,
    /// In which directory to store output
    pub output_directory: Option<Vec<u8>>,
    /// Templates for documentation generation, separated by commas.
    pub template: Option<Vec<u8>>,
    /// An optional file containing reference definitions.
    pub references_file: Option<Vec<u8>>,
    /// Whether to include dependency diagrams in the generated docs
    pub include_dep_diagrams: bool,
    /// Whether to include call diagrams in the generated docs
    pub include_call_diagrams: bool,
    /// If this is being compiled relative to a different place where it will be stored (output directory)
    pub compile_relative_to_output_dir: bool,
}

/// The experimental subcommands.
#[derive(Debug, Clone, Copy, PartialEq, Eq, Structural)]
pub enum NovaExperimentalSubcommandType {
    SubcmdReadWriteSet,
}

/// How a read/write set analysis is concretized.
#[derive(Debug, Clone, Copy, PartialEq, Eq, Structural)]
pub enum NovaConcretizeMode {
    /// Show the full concretized access paths read or written (e.g. 0xA/0x1::M::S/f/g)
    Paths,
    /// Show only the concrete resource keys that are read (e.g. 0xA/0x1::M::S)
    Reads,
    /// Show only the concrete resource keys that are written (e.g. 0xA/0x1::M::S)
    Writes,
    /// Do not concretize; show the results from the static analysis
    Dont,
}

/// Perform a read/write set analysis and print the results for
/// `module_file`::`script_name`.
pub struct ReadWriteSet {
    /// Path to .mv file containing module bytecode.
    pub module_file: Option<Vec<u8>>,
    /// A function inside `module_file`.
    pub fun_name: Option<Vec<u8>>,
    /// Signers, separated by commas.
    pub signers: Option<Vec<u8>>,
    /// Transaction arguments, separated by commas.
    pub args: Option<Vec<u8>>,
    /// Type arguments, separated by commas.
    pub type_args: Option<Vec<u8>>,
    pub concretize: NovaConcretizeMode,
}

/// Options of the experimental commands.
pub struct NovaCompilerExperimentalOption {
    /// Directory storing Move resources, events, and module bytecodes produced by module publishing
    /// and script execution; absent for the default.
    pub storage_dir: Option<Vec<u8>>,
    pub cmd_type: NovaExperimentalSubcommandType,
    pub rws: ReadWriteSet,
}

/// The pieces of `s` between occurrences of `sep`, in order: one more
/// piece than there are separators, empty pieces included.
pub open spec fn split_spec(s: Seq<u8>, sep: u8) -> Seq<Seq<u8>>
    decreases s.len(),
{
    if s.len() == 0 {
        seq![Seq::empty()]
    } else {
        let rest = split_spec(s.drop_last(), sep);
        if s.last() == sep {
            rest.push(Seq::empty())
        } else {
            rest.update(rest.len() - 1, rest.last().push(s.last()))
        }
    }
}

/// The pieces joined back, `sep` between neighbours.
pub open spec fn join_spec(pieces: Seq<Seq<u8>>, sep: u8) -> Seq<u8>
    decreases pieces.len(),
{
    if pieces.len() == 0 {
        Seq::empty()
    } else if pieces.len() == 1 {
        pieces[0]
    } else {
        join_spec(pieces.drop_last(), sep).push(sep) + pieces.last()
    }
}

/// `split_spec` never gives an empty list.
pub proof fn lemma_split_nonempty(s: Seq<u8>, sep: u8)
    ensures
        split_spec(s, sep).len() >= 1,
    decreases s.len(),
{
    if s.len() > 0 {
        lemma_split_nonempty(s.drop_last(), sep);
    }
}

/// Splitting at a separator and joining with it gives the text back, and
/// no piece holds the separator.
pub proof fn lemma_split_join(s: Seq<u8>, sep: u8)
    ensures
        join_spec(split_spec(s, sep), sep) == s,
        forall|i: int, j: int|
            0 <= i < split_spec(s, sep).len() && 0 <= j < split_spec(s, sep)[i].len()
                ==> split_spec(s, sep)[i][j] != sep,
    decreases s.len(),
{
    if s.len() > 0 {
        let init = s.drop_last();
        lemma_split_join(init, sep);
        lemma_split_nonempty(init, sep);
        let rest = split_spec(init, sep);
        if s.last() == sep {
            assert(split_spec(s, sep).drop_last() =~= rest);
            assert(join_spec(split_spec(s, sep), sep) =~= s);
        } else {
            let pieces = split_spec(s, sep);
            if rest.len() == 1 {
                assert(pieces =~= seq![rest[0].push(s.last())]);
                assert(join_spec(pieces, sep) =~= s);
            } else {
                assert(pieces.drop_last() =~= rest.drop_last());
                assert(pieces.last() == rest.last().push(s.last()));
                let head = join_spec(rest.drop_last(), sep).push(sep);
                assert(join_spec(rest, sep) == head + rest.last());
                assert(join_spec(pieces, sep) == head + rest.last().push(s.last()));
                assert(head + rest.last().push(s.last()) =~= (head + rest.last()).push(s.last()));
                assert(init.push(s.last()) =~= s);
            }
            assert forall|i: int, j: int|
                0 <= i < pieces.len() && 0 <= j < pieces[i].len() implies pieces[i][j] != sep by {
                if i == pieces.len() - 1 && j == pieces[i].len() - 1 {
                } else if i == pieces.len() - 1 {
                    assert(pieces[i][j] == rest.last()[j]);
                } else {
                    assert(pieces[i] == rest[i]);
                }
            }
        }
    }
}

/// The pieces of `s` between occurrences of `sep`, as `str::split` gives them.
pub fn split_bytes(s: &[u8], sep: u8) -> (r: Vec<Vec<u8>>)
    ensures
        r@.map_values(|p: Vec<u8>| p@) == split_spec(s@, sep),
{
    let mut pieces: Vec<Vec<u8>> = Vec::new();
    let mut current: Vec<u8> = Vec::new();
    let mut i: usize = 0;
    while i < s.len()
        invariant
            i <= s.len(),
            pieces@.map_values(|p: Vec<u8>| p@).push(current@) == split_spec(s@.take(i as int), sep),
        decreases s.len() - i,
    {
        let ghost before = pieces@.map_values(|p: Vec<u8>| p@).push(current@);
        proof {
            assert(s@.take(i + 1).drop_last() =~= s@.take(i as int));
            lemma_split_nonempty(s@.take(i as int), sep);
        }
        if s[i] == sep {
            let done = current;
            current = Vec::new();
            pieces.push(done);
            assert(pieces@.map_values(|p: Vec<u8>| p@).push(current@) =~= before.push(Seq::empty()));
        } else {
            current.push(s[i]);
            assert(pieces@.map_values(|p: Vec<u8>| p@).push(current@) =~= before.update(
                before.len() - 1,
                before.last().push(s[i as int]),
            ));
        }
        i = i + 1;
    }
    proof {
        assert(s@.take(s@.len() as int) =~= s@);
    }
    let ghost before = pieces@.map_values(|p: Vec<u8>| p@);
    pieces.push(current);
    assert(pieces@.map_values(|p: Vec<u8>| p@) =~= before.push(current@));
    pieces
}

/// The pieces of an optional text between commas; none when absent.
pub open spec fn comma_list(s: Option<Vec<u8>>) -> Seq<Seq<u8>> {
    match s {
        Some(t) => split_spec(t@, 44),
        None => Seq::empty(),
    }
}

/// A count where 0 stands for "unset".
pub open spec fn nonzero_usize(n: usize) -> Option<usize> {
    if n == 0 {
        None
    } else {
        Some(n)
    }
}

fn comma_separated(s: Option<Vec<u8>>) -> (r: Vec<Vec<u8>>)
    ensures
        r@.map_values(|p: Vec<u8>| p@) == comma_list(s),
{
    match s {
        Some(t) => split_bytes(t.as_slice(), 44),
        None => {
            let r: Vec<Vec<u8>> = Vec::new();
            assert(r@.map_values(|p: Vec<u8>| p@) =~= Seq::<Seq<u8>>::empty());
            r
        },
    }
}

/// The build options a package command runs with.
pub struct BuildOptions {
    /// Whether the packages are built for the Move architecture (the
    /// default options leave it unset).
    pub move_architecture: bool,
    pub dev_mode: bool,
    pub test_mode: bool,
    pub generate_docs: bool,
    pub generate_abis: bool,
    pub install_dir: Option<Vec<u8>>,
    pub force_recompilation: bool,
    pub fetch_deps_only: bool,
}

impl NovaCompilerBuildConfig {
    /// The build options: every setting as given, for the Move architecture.
    pub fn into_build_options(self) -> (r: BuildOptions)
        ensures
            r.move_architecture,
            r.dev_mode == self.dev_mode,
            r.test_mode == self.test_mode,
            r.generate_docs == self.generate_docs,
            r.generate_abis == self.generate_abis,
            r.install_dir == self.install_dir,
            r.force_recompilation == self.force_recompilation,
            r.fetch_deps_only == self.fetch_deps_only,
    {
        BuildOptions {
            move_architecture: true,
            dev_mode: self.dev_mode,
            test_mode: self.test_mode,
            generate_docs: self.generate_docs,
            generate_abis: self.generate_abis,
            install_dir: self.install_dir,
            force_recompilation: self.force_recompilation,
            fetch_deps_only: self.fetch_deps_only,
        }
    }
}

/// The arguments a package command runs with.
pub struct MoveArgs {
    pub package_path: Option<Vec<u8>>,
    pub verbose: bool,
    pub build_config: BuildOptions,
}

impl NovaCompilerArgument {
    pub fn into_move_args(self) -> (r: MoveArgs)
        ensures
            r.package_path == self.package_path,
            r.verbose == self.verbose,
            r.build_config.move_architecture,
            r.build_config.dev_mode == self.build_config.dev_mode,
            r.build_config.test_mode == self.build_config.test_mode,
            r.build_config.generate_docs == self.build_config.generate_docs,
            r.build_config.generate_abis == self.build_config.generate_abis,
            r.build_config.install_dir == self.build_config.install_dir,
            r.build_config.force_recompilation == self.build_config.force_recompilation,
            r.build_config.fetch_deps_only == self.build_config.fetch_deps_only,
    {
        MoveArgs {
            package_path: self.package_path,
            verbose: self.verbose,
            build_config: self.build_config.into_build_options(),
        }
    }
}

/// The options `test` runs with.
pub struct TestOptions {
    pub instruction_execution_bound: Option<u64>,
    pub filter: Option<Vec<u8>>,
    pub list: bool,
    pub num_threads: usize,
    pub report_statistics: bool,
    pub report_storage_on_error: bool,
    pub ignore_compile_warnings: bool,
    pub check_stackless_vm: bool,
    pub verbose_mode: bool,
    pub compute_coverage: bool,
}

impl NovaCompilerTestOption {
    /// The test options: a bound of 0 means no bound; the rest as given.
    pub fn into_test_options(self) -> (r: TestOptions)
        ensures
            r.instruction_execution_bound == (if self.instruction_execution_bound == 0 {
                None
            } else {
                Some(self.instruction_execution_bound)
            }),
            r.filter == self.filter,
            r.list == self.list,
            r.num_threads == self.num_threads,
            r.report_statistics == self.report_statistics,
            r.report_storage_on_error == self.report_storage_on_error,
            r.ignore_compile_warnings == self.ignore_compile_warnings,
            r.check_stackless_vm == self.check_stackless_vm,
            r.verbose_mode == self.verbose_mode,
            r.compute_coverage == self.compute_coverage,
    {
        TestOptions {
            instruction_execution_bound: if self.instruction_execution_bound == 0 {
                None
            } else {
                Some(self.instruction_execution_bound)
            },
            filter: self.filter,
            list: self.list,
            num_threads: self.num_threads,
            report_statistics: self.report_statistics,
            report_storage_on_error: self.report_storage_on_error,
            ignore_compile_warnings: self.ignore_compile_warnings,
            check_stackless_vm: self.check_stackless_vm,
            verbose_mode: self.verbose_mode,
            compute_coverage: self.compute_coverage,
        }
    }
}

/// The options `disassemble` runs with.
pub struct DisassembleOptions {
    pub interactive: bool,
    pub package_name: Option<Vec<u8>>,
    pub module_or_script_name: Vec<u8>,
}

impl NovaCompilerDisassembleOption {
    /// The disassemble options; the module or script name must be given.
    pub fn into_disassemble_options(self) -> (r: DisassembleOptions)
        requires
            self.module_or_script_name is Some,
        ensures
            r.interactive == self.interactive,
            r.package_name == self.package_name,
            Some(r.module_or_script_name) == self.module_or_script_name,
    {
        DisassembleOptions {
            interactive: self.interactive,
            package_name: self.package_name,
            module_or_script_name: self.module_or_script_name.unwrap(),
        }
    }
}

/// The options `prove` runs with.
pub struct ProveOptions {
    pub target_filter: Option<Vec<u8>>,
    pub for_test: bool,
    /// The prover's options, one per word.
    pub options: Option<Vec<Vec<u8>>>,
}

impl NovaCompilerProveOption {
    /// The prove options: the prover options are split at spaces.
    pub fn into_prove_options(self) -> (r: ProveOptions)
        ensures
            r.target_filter == self.target_filter,
            r.for_test == self.for_test,
            match self.options {
                Some(t) => r.options matches Some(words) && words@.map_values(|p: Vec<u8>| p@)
                    == split_spec(t@, 32),
                None => r.options is None,
            },
    {
        let options = match self.options {
            Some(t) => Some(split_bytes(t.as_slice(), 32)),
            None => None,
        };
        ProveOptions { target_filter: self.target_filter, for_test: self.for_test, options }
    }
}

/// The options `docgen` runs with.
pub struct DocgenOptions {
    pub section_level_start: Option<usize>,
    pub exclude_private_fun: bool,
    pub exclude_specs: bool,
    pub independent_specs: bool,
    pub exclude_impl: bool,
    pub toc_depth: Option<usize>,
    pub no_collapsed_sections: bool,
    pub output_directory: Option<Vec<u8>>,
    pub template: Vec<Vec<u8>>,
    pub references_file: Option<Vec<u8>>,
    pub include_dep_diagrams: bool,
    pub include_call_diagrams: bool,
    pub compile_relative_to_output_dir: bool,
}

impl NovaCompilerDocgenOption {
    /// The docgen options: a section level or depth of 0 means the default;
    /// the templates are split at commas.
    pub fn into_docgen_options(self) -> (r: DocgenOptions)
        ensures
            r.section_level_start == nonzero_usize(self.section_level_start),
            r.exclude_private_fun == self.exclude_private_fun,
            r.exclude_specs == self.exclude_specs,
            r.independent_specs == self.independent_specs,
            r.exclude_impl == self.exclude_impl,
            r.toc_depth == nonzero_usize(self.toc_depth),
            r.no_collapsed_sections == self.no_collapsed_sections,
            r.output_directory == self.output_directory,
            r.template@.map_values(|p: Vec<u8>| p@) == comma_list(self.template),
            r.references_file == self.references_file,
            r.include_dep_diagrams == self.include_dep_diagrams,
            r.include_call_diagrams == self.include_call_diagrams,
            r.compile_relative_to_output_dir == self.compile_relative_to_output_dir,
    {
        DocgenOptions {
            section_level_start: if self.section_level_start == 0 {
                None
            } else {
                Some(self.section_level_start)
            },
            exclude_private_fun: self.exclude_private_fun,
            exclude_specs: self.exclude_specs,
            independent_specs: self.independent_specs,
            exclude_impl: self.exclude_impl,
            toc_depth: if self.toc_depth == 0 {
                None
            } else {
                Some(self.toc_depth)
            },
            no_collapsed_sections: self.no_collapsed_sections,
            output_directory: self.output_directory,
            template: comma_separated(self.template),
            references_file: self.references_file,
            include_dep_diagrams: self.include_dep_diagrams,
            include_call_diagrams: self.include_call_diagrams,
            compile_relative_to_output_dir: self.compile_relative_to_output_dir,
        }
    }
}

/// The read/write set analysis a command runs: the transaction arguments
/// and type arguments stay as text, to be parsed by the command.
pub struct ReadWriteSetOptions {
    pub module_file: Vec<u8>,
    pub fun_name: Vec<u8>,
    pub signers: Vec<Vec<u8>>,
    pub args: Option<Vec<u8>>,
    pub type_args: Option<Vec<u8>>,
    pub concretize: NovaConcretizeMode,
}

impl ReadWriteSet {
    /// The analysis options; the module file and function must be given,
    /// and the signers are split at commas.
    pub fn into_read_write_set_options(self) -> (r: ReadWriteSetOptions)
        requires
            self.module_file is Some,
            self.fun_name is Some,
        ensures
            Some(r.module_file) == self.module_file,
            Some(r.fun_name) == self.fun_name,
            r.signers@.map_values(|p: Vec<u8>| p@) == comma_list(self.signers),
            r.args == self.args,
            r.type_args == self.type_args,
            r.concretize == self.concretize,
    {
        ReadWriteSetOptions {
            module_file: self.module_file.unwrap(),
            fun_name: self.fun_name.unwrap(),
            signers: comma_separated(self.signers),
            args: self.args,
            type_args: self.type_args,
            concretize: self.concretize,
        }
    }
}

/// The experimental command to run: its storage directory (absent for the
/// default) and the analysis.
pub struct ExperimentalCommand {
    pub storage_dir: Option<Vec<u8>>,
    pub read_write_set: ReadWriteSetOptions,
}

impl NovaCompilerExperimentalOption {
    /// The experimental command the options select.
    pub fn into_command(self) -> (r: ExperimentalCommand)
        requires
            self.rws.module_file is Some,
            self.rws.fun_name is Some,
        ensures
            r.storage_dir == self.storage_dir,
            Some(r.read_write_set.module_file) == self.rws.module_file,
            Some(r.read_write_set.fun_name) == self.rws.fun_name,
            r.read_write_set.signers@.map_values(|p: Vec<u8>| p@) == comma_list(self.rws.signers),
            r.read_write_set.args == self.rws.args,
            r.read_write_set.type_args == self.rws.type_args,
            r.read_write_set.concretize == self.rws.concretize,
    {
        match self.cmd_type {
            NovaExperimentalSubcommandType::SubcmdReadWriteSet => ExperimentalCommand {
                storage_dir: self.storage_dir,
                read_write_set: self.rws.into_read_write_set_options(),
            },
        }
    }
}

/// The default build options: nothing set.
pub open spec fn is_default_build(b: BuildOptions) -> bool {
    &&& !b.move_architecture
    &&& !b.dev_mode
    &&& !b.test_mode
    &&& !b.generate_docs
    &&& !b.generate_abis
    &&& b.install_dir is None
    &&& !b.force_recompilation
    &&& !b.fetch_deps_only
}

/// The arguments of a command given only a package path (absent where the
/// host passed none): default build options.
pub fn generate_default_move_cli(package_path: Option<Vec<u8>>, verbose: bool) -> (r: MoveArgs)
    ensures
        r.package_path == package_path,
        r.verbose == verbose,
        is_default_build(r.build_config),
{
    MoveArgs {
        package_path,
        verbose,
        build_config: BuildOptions {
            move_architecture: false,
            dev_mode: false,
            test_mode: false,
            generate_docs: false,
            generate_abis: false,
            install_dir: None,
            force_recompilation: false,
            fetch_deps_only: false,
        },
    }
}

/// How coverage is summarized.
pub enum CoverageSummary {
    /// A summary over all modules, per function or not, as CSV or not.
    Summary { functions: bool, output_csv: bool },
    /// One module's coverage against its source.
    Source { module_name: Vec<u8> },
    /// One module's coverage against its bytecode.
    Bytecode { module_name: Vec<u8> },
}

/// The coverage summary a display option selects; a module name the host
/// did not pass is empty.
pub fn coverage_summary(
    mode: CoverageOption,
    functions: bool,
    output_csv: bool,
    module_name: Option<Vec<u8>>,
) -> (r: CoverageSummary)
    ensures
        mode is Summary ==> r == (CoverageSummary::Summary { functions, output_csv }),
        mode is Source ==> (r matches CoverageSummary::Source { module_name: m } && m@ == match module_name {
            Some(n) => n@,
            None => Seq::<u8>::empty(),
        }),
        mode is Bytecode ==> (r matches CoverageSummary::Bytecode { module_name: m } && m@ == match module_name {
            Some(n) => n@,
            None => Seq::<u8>::empty(),
        }),
{
    let module_name = match module_name {
        Some(n) => n,
        None => Vec::new(),
    };
    match mode {
        CoverageOption::Summary => CoverageSummary::Summary { functions, output_csv },
        CoverageOption::Source => CoverageSummary::Source { module_name },
        CoverageOption::Bytecode => CoverageSummary::Bytecode { module_name },
    }
}

/// What a package command returns: "ok" when it ran, else a backend failure
/// saying which action failed and why.
pub fn compile_result(action: &str, outcome: Result<(), String>) -> (r: Result<Vec<u8>, RustError>)
    ensures
        outcome is Ok ==> (r matches Ok(v) && v@ == seq![111u8, 107u8]),
        outcome matches Err(e) ==> (r matches Err(RustError::BackendFailure { msg }) && msg@
            == "failed to "@ + action@ + ": "@ + e@),
{
    match outcome {
        Ok(()) => {
            let mut ok: Vec<u8> = Vec::new();
            ok.push(111);
            ok.push(107);
            Ok(ok)
        },
        Err(e) => {
            let text = join2("failed to ", action).concat(": ").concat(e.as_str());
            Err(RustError::backend_failure(text.as_str()))
        },
    }
}

/// The package commands.
#[derive(Debug, Clone, Copy, PartialEq, Eq, Structural)]
pub enum CommandKind {
    Build,
    Coverage,
    Disassemble,
    Docgen,
    Errmap,
    Info,
    MoveyUpload,
    New,
    Prove,
    Test,
    MoveyLogin,
    Sandbox,
    Experimental,
}

/// The name a command is shown by.
pub open spec fn command_name(c: CommandKind) -> Seq<char> {
    match c {
        CommandKind::Build => "build"@,
        CommandKind::Coverage => "coverage"@,
        CommandKind::Disassemble => "disassemble"@,
        CommandKind::Docgen => "docgen"@,
        CommandKind::Errmap => "errmap"@,
        CommandKind::Info => "info"@,
        CommandKind::MoveyUpload => "movey upload"@,
        CommandKind::New => "new"@,
        CommandKind::Prove => "prove"@,
        CommandKind::Test => "test"@,
        CommandKind::MoveyLogin => "movey login"@,
        CommandKind::Sandbox => "sandbox"@,
        CommandKind::Experimental => "experimental"@,
    }
}

impl CommandKind {
    /// The name the command is shown by.
    pub fn name(&self) -> (s: &'static str)
        ensures
            s@ == command_name(*self),
    {
        match self {
            CommandKind::Build => "build",
            CommandKind::Coverage => "coverage",
            CommandKind::Disassemble => "disassemble",
            CommandKind::Docgen => "docgen",
            CommandKind::Errmap => "errmap",
            CommandKind::Info => "info",
            CommandKind::MoveyUpload => "movey upload",
            CommandKind::New => "new",
            CommandKind::Prove => "prove",
            CommandKind::Test => "test",
            CommandKind::MoveyLogin => "movey login",
            CommandKind::Sandbox => "sandbox",
            CommandKind::Experimental => "experimental",
        }
    }
}

/// What the compiler entry point returns: "ok" when the command ran, else
/// a VM error carrying the command's failure.
pub fn move_compiler_result(outcome: Result<(), String>) -> (r: Result<Vec<u8>, RustError>)
    ensures
        outcome is Ok ==> (r matches Ok(v) && v@ == seq![111u8, 107u8]),
        outcome matches Err(e) ==> (r matches Err(RustError::VmErr { msg }) && msg@ == e@),
{
    match outcome {
        Ok(()) => {
            let mut ok: Vec<u8> = Vec::new();
            ok.push(111);
            ok.push(107);
            Ok(ok)
        },
        Err(e) => Err(RustError::vm_err(e.as_str())),
    }
}

} // verus!
