//! The record of build provenance, its two listings (the rows of the table
//! and the fields of the structured form) and its two renderings.

use vstd::prelude::*;

use crate::json::distinct_keys;
use crate::json::encode_pretty;
use crate::json::renders;
use crate::json::surface;
use crate::json::SerializationError;
use crate::table::lemma_table_step;
use crate::table::line;
use crate::table::render_table;
use crate::table::table;

verus! {

/// What was captured about one build: the package, the compiler, the
/// checked-out commit and the build machine.
///
/// Every field is text as it was captured. Nothing is parsed, so a core count
/// or a frequency is as opaque as a branch name. A record is filled once and
/// only read afterwards: no method takes it mutably.
#[derive(Debug)]
pub struct VergenInfo {
    /// When the build ran, as a timestamp with date, time and offset.
    pub build_timestamp: String,
    /// The version of the package that was built.
    pub build_semver: String,
    /// The release channel of the compiler, such as `stable` or `nightly`.
    pub rustc_channel: String,
    /// The date of the commit that the compiler was built from.
    pub rustc_commit_date: String,
    /// The hash of the commit that the compiler was built from.
    pub rustc_commit_hash: String,
    /// The triple of the machine that the compiler ran on.
    pub rustc_host_triple: String,
    /// The version of LLVM inside the compiler.
    pub rustc_llvm_version: String,
    /// The version of the compiler.
    pub rustc_semver: String,
    /// The enabled features of the package, separated by commas.
    pub cargo_features: String,
    /// The build profile, such as `debug` or `release`.
    pub cargo_profile: String,
    /// The triple of the machine that the program was built for.
    pub cargo_target_triple: String,
    /// The name of the operating system of the build machine.
    pub sysinfo_name: String,
    /// The version of that operating system.
    pub sysinfo_os_version: String,
    /// The user who ran the build.
    pub sysinfo_user: String,
    /// The memory of the build machine, already formatted with its unit.
    pub sysinfo_total_memory: String,
    /// The vendor of the build machine's processor.
    pub sysinfo_cpu_vendor: String,
    /// The number of cores of that processor, as text.
    pub sysinfo_cpu_core_count: String,
    /// The names of those cores, separated by commas.
    pub sysinfo_cpu_name: String,
    /// The brand of that processor.
    pub sysinfo_cpu_brand: String,
    /// The frequency of that processor, as text.
    pub sysinfo_cpu_frequency: String,
    /// The branch that was checked out.
    pub git_branch: String,
    /// When the checked-out commit was made.
    pub git_commit_timestamp: String,
    /// The version that `git describe` gives for the checked-out commit.
    pub git_semver: String,
    /// The hash of the checked-out commit.
    pub git_sha: String,
}

impl Clone for VergenInfo {
    /// A copy with the same text in every field.
    fn clone(&self) -> (copy: Self)
        ensures
            copy == *self,
    {
        VergenInfo {
            build_timestamp: self.build_timestamp.clone(),
            build_semver: self.build_semver.clone(),
            rustc_channel: self.rustc_channel.clone(),
            rustc_commit_date: self.rustc_commit_date.clone(),
            rustc_commit_hash: self.rustc_commit_hash.clone(),
            rustc_host_triple: self.rustc_host_triple.clone(),
            rustc_llvm_version: self.rustc_llvm_version.clone(),
            rustc_semver: self.rustc_semver.clone(),
            cargo_features: self.cargo_features.clone(),
            cargo_profile: self.cargo_profile.clone(),
            cargo_target_triple: self.cargo_target_triple.clone(),
            sysinfo_name: self.sysinfo_name.clone(),
            sysinfo_os_version: self.sysinfo_os_version.clone(),
            sysinfo_user: self.sysinfo_user.clone(),
            sysinfo_total_memory: self.sysinfo_total_memory.clone(),
            sysinfo_cpu_vendor: self.sysinfo_cpu_vendor.clone(),
            sysinfo_cpu_core_count: self.sysinfo_cpu_core_count.clone(),
            sysinfo_cpu_name: self.sysinfo_cpu_name.clone(),
            sysinfo_cpu_brand: self.sysinfo_cpu_brand.clone(),
            sysinfo_cpu_frequency: self.sysinfo_cpu_frequency.clone(),
            git_branch: self.git_branch.clone(),
            git_commit_timestamp: self.git_commit_timestamp.clone(),
            git_semver: self.git_semver.clone(),
            git_sha: self.git_sha.clone(),
        }
    }
}

/// For each row of the table, the position in [`VergenInfo::entries`] of the
/// field that the row shows.
pub open spec fn row_sources() -> Seq<int> {
    seq![0, 1, 23, 21, 20, 7, 2, 5, 4, 10, 9]
}

impl VergenInfo {
    /// The rows of the table, in the order in which they are printed: each a
    /// label and the value of the field that it stands for. The compiler's
    /// LLVM version and commit date, the features, the described version and
    /// all that is known of the build machine have no row.
    pub open spec fn rows_view(&self) -> Seq<(Seq<char>, Seq<char>)> {
        seq![
            ("Build Timestamp:"@, self.build_timestamp@),
            ("Build Version:"@, self.build_semver@),
            ("Commit SHA:"@, self.git_sha@),
            ("Commit Date:"@, self.git_commit_timestamp@),
            ("Commit Branch:"@, self.git_branch@),
            ("Compiler Version:"@, self.rustc_semver@),
            ("Compiler Channel:"@, self.rustc_channel@),
            ("Compiler Host Triple:"@, self.rustc_host_triple@),
            ("Compiler Commit SHA:"@, self.rustc_commit_hash@),
            ("Target Triple:"@, self.cargo_target_triple@),
            ("Build Profile:"@, self.cargo_profile@),
        ]
    }

    /// The text of the table: the line of each row, in the order of the rows.
    pub open spec fn table_view(&self) -> Seq<char> {
        line("Build Timestamp:"@, self.build_timestamp@)
        + line("Build Version:"@, self.build_semver@)
        + line("Commit SHA:"@, self.git_sha@)
        + line("Commit Date:"@, self.git_commit_timestamp@)
        + line("Commit Branch:"@, self.git_branch@)
        + line("Compiler Version:"@, self.rustc_semver@)
        + line("Compiler Channel:"@, self.rustc_channel@)
        + line("Compiler Host Triple:"@, self.rustc_host_triple@)
        + line("Compiler Commit SHA:"@, self.rustc_commit_hash@)
        + line("Target Triple:"@, self.cargo_target_triple@)
        + line("Build Profile:"@, self.cargo_profile@)
    }

    /// Every field with its name, in the order of declaration.
    pub open spec fn entries(&self) -> Seq<(Seq<char>, Seq<char>)> {
        seq![
            ("build_timestamp"@, self.build_timestamp@),
            ("build_semver"@, self.build_semver@),
            ("rustc_channel"@, self.rustc_channel@),
            ("rustc_commit_date"@, self.rustc_commit_date@),
            ("rustc_commit_hash"@, self.rustc_commit_hash@),
            ("rustc_host_triple"@, self.rustc_host_triple@),
            ("rustc_llvm_version"@, self.rustc_llvm_version@),
            ("rustc_semver"@, self.rustc_semver@),
            ("cargo_features"@, self.cargo_features@),
            ("cargo_profile"@, self.cargo_profile@),
            ("cargo_target_triple"@, self.cargo_target_triple@),
            ("sysinfo_name"@, self.sysinfo_name@),
            ("sysinfo_os_version"@, self.sysinfo_os_version@),
            ("sysinfo_user"@, self.sysinfo_user@),
            ("sysinfo_total_memory"@, self.sysinfo_total_memory@),
            ("sysinfo_cpu_vendor"@, self.sysinfo_cpu_vendor@),
            ("sysinfo_cpu_core_count"@, self.sysinfo_cpu_core_count@),
            ("sysinfo_cpu_name"@, self.sysinfo_cpu_name@),
            ("sysinfo_cpu_brand"@, self.sysinfo_cpu_brand@),
            ("sysinfo_cpu_frequency"@, self.sysinfo_cpu_frequency@),
            ("git_branch"@, self.git_branch@),
            ("git_commit_timestamp"@, self.git_commit_timestamp@),
            ("git_semver"@, self.git_semver@),
            ("git_sha"@, self.git_sha@),
        ]
    }

    /// The rows of the table: see [`VergenInfo::rows_view`].
    pub fn rows(&self) -> (rows: Vec<(&str, &str)>)
        ensures
            rows.deep_view() == self.rows_view(),
    {
        let mut rows: Vec<(&str, &str)> = Vec::new();
        rows.push(("Build Timestamp:", self.build_timestamp.as_str()));
        rows.push(("Build Version:", self.build_semver.as_str()));
        rows.push(("Commit SHA:", self.git_sha.as_str()));
        rows.push(("Commit Date:", self.git_commit_timestamp.as_str()));
        rows.push(("Commit Branch:", self.git_branch.as_str()));
        rows.push(("Compiler Version:", self.rustc_semver.as_str()));
        rows.push(("Compiler Channel:", self.rustc_channel.as_str()));
        rows.push(("Compiler Host Triple:", self.rustc_host_triple.as_str()));
        rows.push(("Compiler Commit SHA:", self.rustc_commit_hash.as_str()));
        rows.push(("Target Triple:", self.cargo_target_triple.as_str()));
        rows.push(("Build Profile:", self.cargo_profile.as_str()));
        rows
    }

    /// Every field with its name: see [`VergenInfo::entries`].
    pub fn fields(&self) -> (fields: Vec<(&str, &str)>)
        ensures
            fields.deep_view() == self.entries(),
    {
        let mut fields: Vec<(&str, &str)> = Vec::new();
        fields.push(("build_timestamp", self.build_timestamp.as_str()));
        fields.push(("build_semver", self.build_semver.as_str()));
        fields.push(("rustc_channel", self.rustc_channel.as_str()));
        fields.push(("rustc_commit_date", self.rustc_commit_date.as_str()));
        fields.push(("rustc_commit_hash", self.rustc_commit_hash.as_str()));
        fields.push(("rustc_host_triple", self.rustc_host_triple.as_str()));
        fields.push(("rustc_llvm_version", self.rustc_llvm_version.as_str()));
        fields.push(("rustc_semver", self.rustc_semver.as_str()));
        fields.push(("cargo_features", self.cargo_features.as_str()));
        fields.push(("cargo_profile", self.cargo_profile.as_str()));
        fields.push(("cargo_target_triple", self.cargo_target_triple.as_str()));
        fields.push(("sysinfo_name", self.sysinfo_name.as_str()));
        fields.push(("sysinfo_os_version", self.sysinfo_os_version.as_str()));
        fields.push(("sysinfo_user", self.sysinfo_user.as_str()));
        fields.push(("sysinfo_total_memory", self.sysinfo_total_memory.as_str()));
        fields.push(("sysinfo_cpu_vendor", self.sysinfo_cpu_vendor.as_str()));
        fields.push(("sysinfo_cpu_core_count", self.sysinfo_cpu_core_count.as_str()));
        fields.push(("sysinfo_cpu_name", self.sysinfo_cpu_name.as_str()));
        fields.push(("sysinfo_cpu_brand", self.sysinfo_cpu_brand.as_str()));
        fields.push(("sysinfo_cpu_frequency", self.sysinfo_cpu_frequency.as_str()));
        fields.push(("git_branch", self.git_branch.as_str()));
        fields.push(("git_commit_timestamp", self.git_commit_timestamp.as_str()));
        fields.push(("git_semver", self.git_semver.as_str()));
        fields.push(("git_sha", self.git_sha.as_str()));
        fields
    }

    /// The human-readable rendering: one line for each row of the table, in
    /// the order of the rows. In a line the label comes first, filled up with
    /// spaces to twenty characters, then one space, the value and a line feed.
    pub fn to_string(&self) -> (text: String)
        ensures
            text@ == self.table_view(),
    {
        let rows = self.rows();
        proof {
            lemma_table_of_rows(*self);
        }
        render_table(&rows)
    }

    /// The structured rendering: a pretty-printed JSON object with one member
    /// for each field, named as the field is, in the order of declaration.
    /// It fails where the encoder does, and only there.
    pub fn to_json(&self) -> (result: Result<String, SerializationError>)
        ensures
            renders(self.entries(), result),
    {
        let fields = self.fields();
        proof {
            lemma_field_names_differ(*self);
        }
        surface(encode_pretty(&fields))
    }
}

/// The table of a record's rows is the text of its table.
pub proof fn lemma_table_of_rows(info: VergenInfo)
    ensures
        table(info.rows_view()) == info.table_view(),
{
    let rows = info.rows_view();
    lemma_table_step(rows, 0);
    lemma_table_step(rows, 1);
    lemma_table_step(rows, 2);
    lemma_table_step(rows, 3);
    lemma_table_step(rows, 4);
    lemma_table_step(rows, 5);
    lemma_table_step(rows, 6);
    lemma_table_step(rows, 7);
    lemma_table_step(rows, 8);
    lemma_table_step(rows, 9);
    lemma_table_step(rows, 10);
}

/// No two fields have the same name, so each member of the structured form
/// stands for one field.
pub proof fn lemma_field_names_differ(info: VergenInfo)
    ensures
        distinct_keys(info.entries()),
{
    let entries = info.entries();
    assert forall|i: int, j: int| 0 <= i < j < entries.len() implies entries[i].0
        != entries[j].0 by {
        reveal_strlit("build_timestamp");
        reveal_strlit("build_semver");
        reveal_strlit("rustc_channel");
        reveal_strlit("rustc_commit_date");
        reveal_strlit("rustc_commit_hash");
        reveal_strlit("rustc_host_triple");
        reveal_strlit("rustc_llvm_version");
        reveal_strlit("rustc_semver");
        reveal_strlit("cargo_features");
        reveal_strlit("cargo_profile");
        reveal_strlit("cargo_target_triple");
        reveal_strlit("sysinfo_name");
        reveal_strlit("sysinfo_os_version");
        reveal_strlit("sysinfo_user");
        reveal_strlit("sysinfo_total_memory");
        reveal_strlit("sysinfo_cpu_vendor");
        reveal_strlit("sysinfo_cpu_core_count");
        reveal_strlit("sysinfo_cpu_name");
        reveal_strlit("sysinfo_cpu_brand");
        reveal_strlit("sysinfo_cpu_frequency");
        reveal_strlit("git_branch");
        reveal_strlit("git_commit_timestamp");
        reveal_strlit("git_semver");
        reveal_strlit("git_sha");
        assert("build_timestamp"@.len() == 15);
        assert("build_semver"@.len() == 12);
        assert("rustc_channel"@.len() == 13);
        assert("rustc_commit_date"@.len() == 17);
        assert("rustc_commit_hash"@.len() == 17);
        assert("rustc_host_triple"@.len() == 17);
        assert("rustc_llvm_version"@.len() == 18);
        assert("rustc_semver"@.len() == 12);
        assert("cargo_features"@.len() == 14);
        assert("cargo_profile"@.len() == 13);
        assert("cargo_target_triple"@.len() == 19);
        assert("sysinfo_name"@.len() == 12);
        assert("sysinfo_os_version"@.len() == 18);
        assert("sysinfo_user"@.len() == 12);
        assert("sysinfo_total_memory"@.len() == 20);
        assert("sysinfo_cpu_vendor"@.len() == 18);
        assert("sysinfo_cpu_core_count"@.len() == 22);
        assert("sysinfo_cpu_name"@.len() == 16);
        assert("sysinfo_cpu_brand"@.len() == 17);
        assert("sysinfo_cpu_frequency"@.len() == 21);
        assert("git_branch"@.len() == 10);
        assert("git_commit_timestamp"@.len() == 20);
        assert("git_semver"@.len() == 10);
        assert("git_sha"@.len() == 7);
        // Where names are of one length, a place at which they differ.
        assert("git_branch"@[4] == 'b');
        assert("git_semver"@[4] == 's');
        assert("build_semver"@[0] == 'b');
        assert("rustc_semver"@[0] == 'r');
        assert("sysinfo_name"@[0] == 's');
        assert("sysinfo_name"@[8] == 'n');
        assert("sysinfo_user"@[0] == 's');
        assert("sysinfo_user"@[8] == 'u');
        assert("rustc_channel"@[0] == 'r');
        assert("cargo_profile"@[0] == 'c');
        assert("rustc_commit_date"@[0] == 'r');
        assert("rustc_commit_date"@[6] == 'c');
        assert("rustc_commit_date"@[13] == 'd');
        assert("rustc_commit_hash"@[0] == 'r');
        assert("rustc_commit_hash"@[6] == 'c');
        assert("rustc_commit_hash"@[13] == 'h');
        assert("rustc_host_triple"@[0] == 'r');
        assert("rustc_host_triple"@[6] == 'h');
        assert("sysinfo_cpu_brand"@[0] == 's');
        assert("rustc_llvm_version"@[0] == 'r');
        assert("sysinfo_os_version"@[0] == 's');
        assert("sysinfo_os_version"@[8] == 'o');
        assert("sysinfo_cpu_vendor"@[0] == 's');
        assert("sysinfo_cpu_vendor"@[8] == 'c');
        assert("sysinfo_total_memory"@[0] == 's');
        assert("git_commit_timestamp"@[0] == 'g');
    }
}

/// The table shows nothing of its own: the value in each of its rows is the
/// value that the structured form has for the field at the row's source.
pub proof fn lemma_rows_show_entries(info: VergenInfo)
    ensures
        info.rows_view().len() == row_sources().len(),
        forall|i: int|
            0 <= i < row_sources().len() ==> {
                &&& 0 <= #[trigger] row_sources()[i] < info.entries().len()
                &&& info.rows_view()[i].1 == info.entries()[row_sources()[i]].1
            },
{
}

/// The structured form leaves nothing out: two records with the same
/// entries have the same text in every field.
pub proof fn lemma_entries_hold_every_field(a: VergenInfo, b: VergenInfo)
    requires
        a.entries() == b.entries(),
    ensures
        a.build_timestamp@ == b.build_timestamp@,
        a.build_semver@ == b.build_semver@,
        a.rustc_channel@ == b.rustc_channel@,
        a.rustc_commit_date@ == b.rustc_commit_date@,
        a.rustc_commit_hash@ == b.rustc_commit_hash@,
        a.rustc_host_triple@ == b.rustc_host_triple@,
        a.rustc_llvm_version@ == b.rustc_llvm_version@,
        a.rustc_semver@ == b.rustc_semver@,
        a.cargo_features@ == b.cargo_features@,
        a.cargo_profile@ == b.cargo_profile@,
        a.cargo_target_triple@ == b.cargo_target_triple@,
        a.sysinfo_name@ == b.sysinfo_name@,
        a.sysinfo_os_version@ == b.sysinfo_os_version@,
        a.sysinfo_user@ == b.sysinfo_user@,
        a.sysinfo_total_memory@ == b.sysinfo_total_memory@,
        a.sysinfo_cpu_vendor@ == b.sysinfo_cpu_vendor@,
        a.sysinfo_cpu_core_count@ == b.sysinfo_cpu_core_count@,
        a.sysinfo_cpu_name@ == b.sysinfo_cpu_name@,
        a.sysinfo_cpu_brand@ == b.sysinfo_cpu_brand@,
        a.sysinfo_cpu_frequency@ == b.sysinfo_cpu_frequency@,
        a.git_branch@ == b.git_branch@,
        a.git_commit_timestamp@ == b.git_commit_timestamp@,
        a.git_semver@ == b.git_semver@,
        a.git_sha@ == b.git_sha@,
{
}

} // verus!
