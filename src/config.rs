//! The entities of a configuration file and the rules that read them.

use crate::document::{
    entry_of, find_entry, opt_strs_text, opt_text, optional_str, optional_strs, pairs_text, read_optional_str,
    read_optional_strs, read_required_str, read_str_pairs, read_toml, required_str, str_pairs_of, toml_reading,
    TomlNode,
};
use crate::error::{ErrorView, ToolsetError, ToolsetResult};
use crate::paths::{ancestor_names, ancestor_names_of, language_among, opt_texts, pick_language};
use vstd::prelude::*;

verus! {

/// Something that carries a name.
pub trait Named {
    /// Whether a name is there to be read.
    spec fn has_name(&self) -> bool;

    /// The name, when there is one.
    spec fn name_text(&self) -> Seq<char>;

    fn get_name(&self) -> (r: String)
        requires
            self.has_name(),
        ensures
            r@ == self.name_text(),
    ;
}

/// The two blocks every configuration must have.
#[derive(Clone, Debug)]
pub struct Config {
    pub framework: Framework,
    pub main: Test,
}

/// The framework under test.
#[derive(Clone, Debug)]
pub struct Framework {
    pub name: String,
    pub authors: Option<Vec<String>>,
    pub github: Option<String>,
}

/// One test variant of a framework.
#[derive(Clone, Debug)]
pub struct Test {
    pub name: Option<String>,
    /// Route type to URL path; the keys are those of one table, so distinct.
    pub urls: Vec<(String, String)>,
    pub approach: String,
    pub classification: String,
    pub orm: Option<String>,
    pub platform: String,
    pub webserver: String,
    pub os: String,
    pub database_os: Option<String>,
    pub database: Option<String>,
    pub versus: String,
    pub tags: Option<Vec<String>>,
    pub dockerfile: Option<String>,
}

/// A language, a framework and its tests: the contents of one directory.
#[derive(Clone, Debug)]
pub struct Project {
    pub name: String,
    pub language: String,
    pub framework: Framework,
    pub tests: Vec<Test>,
}

/// A framework with its texts as sequences of characters.
pub ghost struct FrameworkView {
    pub name: Seq<char>,
    pub authors: Option<Seq<Seq<char>>>,
    pub github: Option<Seq<char>>,
}

/// A test with its texts as sequences of characters.
pub ghost struct TestView {
    pub name: Option<Seq<char>>,
    pub urls: Seq<(Seq<char>, Seq<char>)>,
    pub approach: Seq<char>,
    pub classification: Seq<char>,
    pub orm: Option<Seq<char>>,
    pub platform: Seq<char>,
    pub webserver: Seq<char>,
    pub os: Seq<char>,
    pub database_os: Option<Seq<char>>,
    pub database: Option<Seq<char>>,
    pub versus: Seq<char>,
    pub tags: Option<Seq<Seq<char>>>,
    pub dockerfile: Option<Seq<char>>,
}

/// The two blocks of a configuration, as views.
pub ghost struct ConfigView {
    pub framework: FrameworkView,
    pub main: TestView,
}

impl View for Framework {
    type V = FrameworkView;

    open spec fn view(&self) -> FrameworkView {
        FrameworkView { name: self.name@, authors: opt_strs_text(self.authors), github: opt_text(self.github) }
    }
}

impl View for Test {
    type V = TestView;

    open spec fn view(&self) -> TestView {
        TestView {
            name: opt_text(self.name),
            urls: pairs_text(self.urls@),
            approach: self.approach@,
            classification: self.classification@,
            orm: opt_text(self.orm),
            platform: self.platform@,
            webserver: self.webserver@,
            os: self.os@,
            database_os: opt_text(self.database_os),
            database: opt_text(self.database),
            versus: self.versus@,
            tags: opt_strs_text(self.tags),
            dockerfile: opt_text(self.dockerfile),
        }
    }
}

impl View for Config {
    type V = ConfigView;

    open spec fn view(&self) -> ConfigView {
        ConfigView { framework: self.framework@, main: self.main@ }
    }
}

impl Named for Framework {
    open spec fn has_name(&self) -> bool {
        true
    }

    open spec fn name_text(&self) -> Seq<char> {
        self.name@
    }

    fn get_name(&self) -> (r: String) {
        self.name.clone()
    }
}

impl Named for Test {
    open spec fn has_name(&self) -> bool {
        self.name is Some
    }

    open spec fn name_text(&self) -> Seq<char> {
        self.name->Some_0@
    }

    fn get_name(&self) -> (r: String) {
        match &self.name {
            Some(n) => n.clone(),
            None => String::new(),
        }
    }
}

impl Test {
    /// The label under which this test is known to the tools that run it.
    pub fn get_tag(&self) -> (r: String)
        requires
            self.name is Some,
        ensures
            r@ == "bw.test."@ + self.name->Some_0@,
    {
        let mut tag = String::from_str("bw.test.");
        tag.append(self.get_name().as_str());
        tag
    }

    /// Narrows the URLs to the route type `test_type`, when one is given.
    pub fn specify_test_type(&mut self, test_type: Option<&str>)
        ensures
            final(self)@ == (TestView {
                urls: match test_type {
                    Some(t) => old(self)@.urls.filter(|p: (Seq<char>, Seq<char>)| p.0 == t@),
                    None => old(self)@.urls,
                },
                ..old(self)@
            }),
    {
        if let Some(test_type) = test_type {
            let wanted = String::from_str(test_type);
            let mut kept: Vec<(String, String)> = Vec::new();
            let mut i: usize = 0;
            while i < self.urls.len()
                invariant
                    i <= self.urls@.len(),
                    wanted@ == test_type@,
                    pairs_text(kept@) == pairs_text(self.urls@).subrange(0, i as int).filter(
                        |p: (Seq<char>, Seq<char>)| p.0 == test_type@,
                    ),
                decreases self.urls@.len() - i,
            {
                proof {
                    reveal(Seq::filter);
                }
                let ghost before = pairs_text(kept@);
                assert(pairs_text(self.urls@).subrange(0, i + 1).drop_last() =~= pairs_text(self.urls@).subrange(
                    0,
                    i as int,
                ));
                if self.urls[i].0.eq(&wanted) {
                    kept.push((self.urls[i].0.clone(), self.urls[i].1.clone()));
                    assert(pairs_text(kept@) =~= before.push(pairs_text(self.urls@)[i as int]));
                } else {
                    assert(pairs_text(kept@) =~= before);
                }
                i = i + 1;
            }
            assert(pairs_text(self.urls@).subrange(0, self.urls@.len() as int) =~= pairs_text(self.urls@));
            self.urls = kept;
        }
    }
}

impl Project {
    /// The project's directory, relative to the suite's root:
    /// `frameworks/<language>/<lowercased framework name>`.
    pub fn get_path(&self) -> (r: String)
        ensures
            r@ == "frameworks/"@ + self.language@ + "/"@ + lower_of(self.framework.name@),
    {
        let mut path = String::from_str("frameworks/");
        path.append(self.language.as_str());
        path.append("/");
        path.append(lowercase(self.framework.name.as_str()).as_str());
        path
    }
}

/// The framework that a `framework` block describes: a table with a string
/// `name`, and optionally an array of strings `authors` and a string
/// `github`. Other keys are ignored.
pub open spec fn framework_model(n: TomlNode) -> Option<FrameworkView> {
    match n {
        TomlNode::Table(es) => {
            let name = required_str(es@, "name"@);
            let authors = optional_strs(es@, "authors"@);
            let github = optional_str(es@, "github"@);
            if name is Some && authors is Some && github is Some {
                Some(FrameworkView { name: name->Some_0, authors: authors->Some_0, github: github->Some_0 })
            } else {
                None
            }
        },
        _ => None,
    }
}

/// Whether a test block's fields all have their expected types, the
/// required ones present.
pub open spec fn test_fields_ok(es: Seq<(String, TomlNode)>) -> bool {
    &&& entry_of(es, "urls"@) is Some && str_pairs_of(entry_of(es, "urls"@)->Some_0) is Some
    &&& required_str(es, "approach"@) is Some
    &&& required_str(es, "classification"@) is Some
    &&& optional_str(es, "orm"@) is Some
    &&& required_str(es, "platform"@) is Some
    &&& required_str(es, "webserver"@) is Some
    &&& required_str(es, "os"@) is Some
    &&& optional_str(es, "database_os"@) is Some
    &&& optional_str(es, "database"@) is Some
    &&& required_str(es, "versus"@) is Some
    &&& optional_strs(es, "tags"@) is Some
    &&& optional_str(es, "dockerfile"@) is Some
}

/// The test that a block describes, still without a name: a table whose
/// `urls` is a table of strings, whose `approach`, `classification`,
/// `platform`, `webserver`, `os` and `versus` are strings, and whose `orm`,
/// `database_os`, `database`, `dockerfile` (strings) and `tags` (an array of
/// strings) may be missing. Other keys are ignored.
pub open spec fn test_model(n: TomlNode) -> Option<TestView> {
    match n {
        TomlNode::Table(es) => if test_fields_ok(es@) {
            Some(
                TestView {
                    name: None,
                    urls: str_pairs_of(entry_of(es@, "urls"@)->Some_0)->Some_0,
                    approach: required_str(es@, "approach"@)->Some_0,
                    classification: required_str(es@, "classification"@)->Some_0,
                    orm: optional_str(es@, "orm"@)->Some_0,
                    platform: required_str(es@, "platform"@)->Some_0,
                    webserver: required_str(es@, "webserver"@)->Some_0,
                    os: required_str(es@, "os"@)->Some_0,
                    database_os: optional_str(es@, "database_os"@)->Some_0,
                    database: optional_str(es@, "database"@)->Some_0,
                    versus: required_str(es@, "versus"@)->Some_0,
                    tags: optional_strs(es@, "tags"@)->Some_0,
                    dockerfile: optional_str(es@, "dockerfile"@)->Some_0,
                },
            )
        } else {
            None
        },
        _ => None,
    }
}

/// The configuration a document describes: a table with a valid
/// `framework` block and a valid `main` block.
pub open spec fn config_model(doc: TomlNode) -> Option<ConfigView> {
    match doc {
        TomlNode::Table(es) => match (entry_of(es@, "framework"@), entry_of(es@, "main"@)) {
            (Some(f), Some(m)) => match (framework_model(f), test_model(m)) {
                (Some(fv), Some(mv)) => Some(ConfigView { framework: fv, main: mv }),
                _ => None,
            },
            _ => None,
        },
        _ => None,
    }
}

/// Reads a `framework` block.
pub fn decode_framework(n: &TomlNode) -> (r: Option<Framework>)
    ensures
        r is None <==> framework_model(*n) is None,
        r is Some ==> framework_model(*n) == Some(r->Some_0@),
{
    match n {
        TomlNode::Table(es) => {
            let name = read_required_str(es, "name");
            let authors = read_optional_strs(es, "authors");
            let github = read_optional_str(es, "github");
            match (name, authors, github) {
                (Some(name), Some(authors), Some(github)) => Some(Framework { name, authors, github }),
                _ => None,
            }
        },
        _ => None,
    }
}

/// Reads a test block; the test comes out without a name.
pub fn decode_test(n: &TomlNode) -> (r: Option<Test>)
    ensures
        r is None <==> test_model(*n) is None,
        r is Some ==> test_model(*n) == Some(r->Some_0@),
{
    let es = match n {
        TomlNode::Table(es) => es,
        _ => {
            return None;
        },
    };
    let urls = match find_entry(es, &String::from_str("urls")) {
        Some(u) => read_str_pairs(u),
        None => None,
    };
    let approach = read_required_str(es, "approach");
    let classification = read_required_str(es, "classification");
    let orm = read_optional_str(es, "orm");
    let platform = read_required_str(es, "platform");
    let webserver = read_required_str(es, "webserver");
    let os = read_required_str(es, "os");
    let database_os = read_optional_str(es, "database_os");
    let database = read_optional_str(es, "database");
    let versus = read_required_str(es, "versus");
    let tags = read_optional_strs(es, "tags");
    let dockerfile = read_optional_str(es, "dockerfile");
    match (urls, approach, classification, orm, platform, webserver, os, database_os, database, versus, tags, dockerfile) {
        (
            Some(urls),
            Some(approach),
            Some(classification),
            Some(orm),
            Some(platform),
            Some(webserver),
            Some(os),
            Some(database_os),
            Some(database),
            Some(versus),
            Some(tags),
            Some(dockerfile),
        ) => Some(
            Test {
                name: None,
                urls,
                approach,
                classification,
                orm,
                platform,
                webserver,
                os,
                database_os,
                database,
                versus,
                tags,
                dockerfile,
            },
        ),
        _ => None,
    }
}

/// Reads the `framework` and `main` blocks of a document.
pub fn decode_config(doc: &TomlNode) -> (r: Option<Config>)
    ensures
        r is None <==> config_model(*doc) is None,
        r is Some ==> config_model(*doc) == Some(r->Some_0@),
{
    match doc {
        TomlNode::Table(es) => {
            let f = find_entry(es, &String::from_str("framework"));
            let m = find_entry(es, &String::from_str("main"));
            match (f, m) {
                (Some(f), Some(m)) => match (decode_framework(f), decode_test(m)) {
                    (Some(framework), Some(main)) => Some(Config { framework, main }),
                    _ => None,
                },
                _ => None,
            }
        },
        _ => None,
    }
}

/// The lowercase form of a text, as Rust's standard library computes it.
pub uninterp spec fn lower_of(s: Seq<char>) -> Seq<char>;

/// Relies on `str::to_lowercase`: the Unicode lowercase mapping of the
/// text, which depends on its characters alone.
#[verifier::external_body]
pub(crate) fn lowercase(s: &str) -> (r: String)
    ensures
        r@ == lower_of(s@),
{
    s.to_lowercase()
}

/// The diagnostic for a document that parses but lacks a valid `framework`
/// or `main` block.
pub open spec fn config_shape_message() -> Seq<char> {
    "expected a valid `framework` block and a valid `main` block"@
}

/// The diagnostic for a block that is not a valid test.
pub open spec fn block_message(key: Seq<char>) -> Seq<char> {
    "block `"@ + key + "` is not a valid test"@
}

/// What reading a configuration gives: the toml diagnostic when the text
/// does not parse, the shape diagnostic when it lacks its two blocks.
pub open spec fn config_outcome(file: Seq<char>, text: Seq<char>) -> Result<ConfigView, ErrorView> {
    match toml_reading(text) {
        Err(m) => Err(ErrorView::InvalidConfig(file, m)),
        Ok(doc) => match config_model(doc) {
            Some(c) => Ok(c),
            None => Err(ErrorView::InvalidConfig(file, config_shape_message())),
        },
    }
}

/// What reading the framework of a configuration gives.
pub open spec fn framework_outcome(file: Seq<char>, text: Seq<char>) -> Result<FrameworkView, ErrorView> {
    match config_outcome(file, text) {
        Ok(c) => Ok(c.framework),
        Err(e) => Err(e),
    }
}

/// The name of the test a block gives: the lowercased framework name for
/// `main`, that name, a dash and the key for any other block.
pub open spec fn test_name(folded: Seq<char>, key: Seq<char>) -> Seq<char> {
    if key == "main"@ {
        folded
    } else {
        folded + "-"@ + key
    }
}

/// The tests that a document's blocks give, in the order of the blocks,
/// the `framework` block left out; the first block that is not a valid
/// test makes it an error.
pub open spec fn blocks_outcome(file: Seq<char>, entries: Seq<(String, TomlNode)>, folded: Seq<char>) -> Result<
    Seq<TestView>,
    ErrorView,
>
    decreases entries.len(),
{
    if entries.len() == 0 {
        Ok(Seq::empty())
    } else {
        match blocks_outcome(file, entries.drop_last(), folded) {
            Err(e) => Err(e),
            Ok(ts) => {
                let key = entries.last().0@;
                if key == "framework"@ {
                    Ok(ts)
                } else {
                    match test_model(entries.last().1) {
                        Some(t) => Ok(ts.push(TestView { name: Some(test_name(folded, key)), ..t })),
                        None => Err(ErrorView::InvalidConfig(file, block_message(key))),
                    }
                }
            },
        }
    }
}

/// What reading the tests of a configuration gives.
pub open spec fn tests_outcome(file: Seq<char>, text: Seq<char>) -> Result<Seq<TestView>, ErrorView> {
    match config_outcome(file, text) {
        Err(e) => Err(e),
        Ok(c) => blocks_outcome(file, toml_reading(text)->Ok_0->Table_0@, lower_of(c.framework.name)),
    }
}

/// A framework result, as views.
pub open spec fn framework_result(r: ToolsetResult<Framework>) -> Result<FrameworkView, ErrorView> {
    match r {
        Ok(f) => Ok(f@),
        Err(e) => Err(e@),
    }
}

/// A result holding tests, as views.
pub open spec fn tests_result(r: ToolsetResult<Vec<Test>>) -> Result<Seq<TestView>, ErrorView> {
    match r {
        Ok(v) => Ok(v@.map_values(|t: Test| t@)),
        Err(e) => Err(e@),
    }
}

/// A result holding a text, as views.
pub open spec fn text_result(r: ToolsetResult<String>) -> Result<Seq<char>, ErrorView> {
    match r {
        Ok(s) => Ok(s@),
        Err(e) => Err(e@),
    }
}

/// Once a prefix of the blocks fails, the whole fails the same way.
proof fn lemma_blocks_error_stays(file: Seq<char>, entries: Seq<(String, TomlNode)>, folded: Seq<char>, i: int)
    requires
        0 <= i <= entries.len(),
        blocks_outcome(file, entries.subrange(0, i), folded) is Err,
    ensures
        blocks_outcome(file, entries, folded) == blocks_outcome(file, entries.subrange(0, i), folded),
    decreases entries.len(),
{
    if i == entries.len() {
        assert(entries.subrange(0, i) =~= entries);
    } else {
        assert(entries.drop_last().subrange(0, i) =~= entries.subrange(0, i));
        lemma_blocks_error_stays(file, entries.drop_last(), folded, i);
    }
}

/// Reads a configuration and keeps its value tree.
fn load_config(file: &str, contents: &str) -> (r: ToolsetResult<(Config, TomlNode)>)
    ensures
        r is Ok ==> config_outcome(file@, contents@) == Ok::<ConfigView, ErrorView>(r->Ok_0.0@)
            && toml_reading(contents@) == Ok::<TomlNode, Seq<char>>(r->Ok_0.1),
        r is Err ==> config_outcome(file@, contents@) == Err::<ConfigView, ErrorView>(r->Err_0@),
{
    let doc = match read_toml(contents) {
        Ok(d) => d,
        Err(m) => {
            return Err(ToolsetError::InvalidConfigError(String::from_str(file), m));
        },
    };
    match decode_config(&doc) {
        Some(c) => Ok((c, doc)),
        None => Err(
            ToolsetError::InvalidConfigError(
                String::from_str(file),
                String::from_str("expected a valid `framework` block and a valid `main` block"),
            ),
        ),
    }
}

/// Reads the framework block of a configuration file's contents.
pub fn get_framework_by_config_file(file: &str, contents: &str) -> (r: ToolsetResult<Framework>)
    ensures
        framework_result(r) == framework_outcome(file@, contents@),
{
    match load_config(file, contents) {
        Ok((c, _)) => Ok(c.framework),
        Err(e) => Err(e),
    }
}

/// Turns a document's blocks into tests, naming each after `folded_name`
/// (the lowercased framework name) and its key.
pub fn tests_from_blocks(file: &str, entries: &Vec<(String, TomlNode)>, folded_name: &str) -> (r: ToolsetResult<
    Vec<Test>,
>)
    ensures
        tests_result(r) == blocks_outcome(file@, entries@, folded_name@),
{
    let framework_key = String::from_str("framework");
    let main_key = String::from_str("main");
    let mut tests: Vec<Test> = Vec::new();
    let mut i: usize = 0;
    assert(entries@.subrange(0, 0).len() == 0);
    assert(tests@.map_values(|t: Test| t@) =~= Seq::<TestView>::empty());
    while i < entries.len()
        invariant
            i <= entries@.len(),
            framework_key@ == "framework"@,
            main_key@ == "main"@,
            blocks_outcome(file@, entries@.subrange(0, i as int), folded_name@) == Ok::<Seq<TestView>, ErrorView>(
                tests@.map_values(|t: Test| t@),
            ),
        decreases entries@.len() - i,
    {
        let ghost prefix = entries@.subrange(0, i + 1);
        assert(prefix.drop_last() =~= entries@.subrange(0, i as int));
        let key = &entries[i].0;
        if !key.eq(&framework_key) {
            match decode_test(&entries[i].1) {
                Some(t) => {
                    let mut test = t;
                    let mut name = String::from_str(folded_name);
                    if !key.eq(&main_key) {
                        name.append("-");
                        name.append(key.as_str());
                    }
                    test.name = Some(name);
                    tests.push(test);
                },
                None => {
                    let mut message = String::from_str("block `");
                    message.append(key.as_str());
                    message.append("` is not a valid test");
                    proof {
                        lemma_blocks_error_stays(file@, entries@, folded_name@, i + 1);
                    }
                    return Err(ToolsetError::InvalidConfigError(String::from_str(file), message));
                },
            }
        }
        assert(tests@.map_values(|t: Test| t@) =~= blocks_outcome(file@, prefix, folded_name@)->Ok_0);
        i = i + 1;
    }
    assert(entries@.subrange(0, entries@.len() as int) =~= entries@);
    Ok(tests)
}

/// Reads every test block of a configuration file's contents.
pub fn get_test_implementations_by_config_file(file: &str, contents: &str) -> (r: ToolsetResult<Vec<Test>>)
    ensures
        tests_result(r) == tests_outcome(file@, contents@),
{
    let (config, doc) = match load_config(file, contents) {
        Ok(loaded) => loaded,
        Err(e) => {
            return Err(e);
        },
    };
    let folded = lowercase(config.framework.name.as_str());
    match &doc {
        TomlNode::Table(es) => tests_from_blocks(file, es, folded.as_str()),
        _ => Err(
            ToolsetError::InvalidConfigError(
                String::from_str(file),
                String::from_str("expected a valid `framework` block and a valid `main` block"),
            ),
        ),
    }
}

/// The folded form of each name along a path.
pub open spec fn folded_names(names: Seq<Option<Seq<char>>>) -> Seq<Option<Seq<char>>> {
    Seq::new(
        names.len(),
        |i: int|
            match names[i] {
                Some(n) => Some(lower_of(n)),
                None => None,
            },
    )
}

/// What looking up the language of a file gives.
pub open spec fn language_outcome(framework_name: Seq<char>, file: Seq<char>) -> Result<Seq<char>, ErrorView> {
    let names = ancestor_names_of(file);
    match language_among(names, folded_names(names), lower_of(framework_name)) {
        Some(l) => Ok(l),
        None => Err(ErrorView::LanguageNotFound(lower_of(framework_name), file)),
    }
}

/// The language of a configuration file: the name of the directory that
/// holds the framework's directory, found by walking up from the file.
pub fn get_language_by_config_file(framework: &Framework, file: &str) -> (r: ToolsetResult<String>)
    ensures
        text_result(r) == language_outcome(framework.name@, file@),
{
    let names = ancestor_names(file);
    let target = lowercase(framework.name.as_str());
    let mut folded: Vec<Option<String>> = Vec::new();
    let mut i: usize = 0;
    while i < names.len()
        invariant
            i <= names@.len(),
            folded@.len() == i,
            forall|j: int|
                0 <= j < i ==> opt_text(#[trigger] folded@[j]) == folded_names(opt_texts(names@))[j],
        decreases names@.len() - i,
    {
        match &names[i] {
            Some(n) => folded.push(Some(lowercase(n.as_str()))),
            None => folded.push(None),
        }
        i = i + 1;
    }
    assert(opt_texts(folded@) =~= folded_names(opt_texts(names@)));
    match pick_language(&names, &folded, &target) {
        Some(l) => Ok(l),
        None => Err(ToolsetError::LanguageNotFoundError(target, String::from_str(file))),
    }
}

/// What looking up the project name of a file gives.
pub open spec fn project_name_outcome(file: Seq<char>) -> Result<Seq<char>, ErrorView> {
    let names = ancestor_names_of(file);
    if names.len() > 1 && names[1] is Some {
        Ok(names[1]->Some_0)
    } else {
        Err(ErrorView::ProjectName(file))
    }
}

/// The name of the directory that holds a configuration file.
pub fn get_project_name_by_config_file(file: &str) -> (r: ToolsetResult<String>)
    ensures
        text_result(r) == project_name_outcome(file@),
{
    let names = ancestor_names(file);
    if names.len() > 1 {
        match &names[1] {
            Some(n) => {
                return Ok(n.clone());
            },
            None => {},
        }
    }
    Err(ToolsetError::ProjectNameError(String::from_str(file)))
}

} // verus!
