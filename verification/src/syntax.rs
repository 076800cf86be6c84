//! The kinds of node that a syntax tree is made of.

use vstd::prelude::*;

verus! {

/// The kind of a segment: what a token was lexed as, or what a node was
/// parsed as.
#[derive(Clone, Copy, Debug, PartialEq, Eq, Hash, Structural)]
pub enum SyntaxKind {
    // Tokens without meaning for the grammar.
    Whitespace,
    Newline,
    InlineComment,
    BlockComment,
    Comment,
    // Markers that stand for no text.
    Indent,
    Dedent,
    EndOfFile,
    // Tokens.
    Unlexable,
    Code,
    Word,
    Keyword,
    Symbol,
    NakedIdentifier,
    QuotedIdentifier,
    SingleQuote,
    DoubleQuote,
    BackQuote,
    DollarQuote,
    QuotedLiteral,
    NumericLiteral,
    DateConstructorLiteral,
    LikeOperator,
    CastingOperator,
    ComparisonOperator,
    RawComparisonOperator,
    BinaryOperator,
    RightArrow,
    Lambda,
    Not,
    Dot,
    Comma,
    Plus,
    Minus,
    Divide,
    Percent,
    Question,
    Ampersand,
    VerticalBar,
    Caret,
    Star,
    Colon,
    Semicolon,
    StatementTerminator,
    StartBracket,
    EndBracket,
    StartSquareBracket,
    EndSquareBracket,
    StartCurlyBracket,
    EndCurlyBracket,
    StartAngleBracket,
    EndAngleBracket,
    // Nodes.
    File,
    Unparsable,
    Statement,
    Bracketed,
    Expression,
    SelectStatement,
    SelectClause,
    SelectClauseElement,
    SetExpression,
    WithCompoundStatement,
    FromClause,
    FromExpression,
    FromExpressionElement,
    TableExpression,
    TableReference,
    ValuesClause,
    AliasExpression,
    WhereClause,
    JoinClause,
    UsingClause,
    InsertStatement,
    CreateTableStatement,
    ColumnDefinition,
    ColumnReference,
    ObjectReference,
    ArrayAccessor,
    CaseExpression,
    WhenClause,
    ElseClause,
    CastExpression,
    DataType,
    PrimitiveType,
    Function,
    FunctionName,
    FunctionNameIdentifier,
    SetOperator,
    ColumnConstraintSegment,
    IndexColumnDefinition,
    TableEndClauseSegment,
    PragmaReference,
    PragmaStatement,
    ArrayJoinClause,
    ColumnTtlSegment,
    TableTtlSegment,
    CreateMaterializedViewStatement,
    DatabaseEngine,
    Engine,
    EngineFunction,
    TableEngineFunction,
    OnClusterClause,
    DropDictionaryStatement,
    DropQuotaStatement,
    DropSettingProfileStatement,
    SystemStatement,
    SystemMergesSegment,
    SystemTtlMergesSegment,
    SystemMovesSegment,
    SystemReplicaSegment,
    SystemFilesystemSegment,
    SystemReplicatedSegment,
    SystemReplicationSegment,
    SystemFetchesSegment,
    SystemDistributedSegment,
    SystemModelSegment,
    SystemFileSegment,
    SystemUnfreezeSegment,
    AddFileStatement,
    AddJarStatement,
    AlterDatabaseStatement,
    AlterViewStatement,
    AnalyzeTableStatement,
    ApplyChangesIntoStatement,
    AtSignLiteral,
    BytesDoubleQuote,
    BytesQuotedLiteral,
    BytesSingleQuote,
    CacheTable,
    ClearCache,
    ClusterByClause,
    ConstraintStatement,
    ConvertToDeltaStatement,
    CreateWidgetStatement,
    Dash,
    DataSourceFormat,
    DescribeDetailStatement,
    DescribeHistoryStatement,
    DescribeStatement,
    DistributeByClause,
    DropFunctionStatement,
    EndHint,
    FileFormat,
    FileKeyword,
    FileLiteral,
    FileReference,
    GenerateManifestFileStatement,
    GeneratedColumnDefinition,
    HintFunction,
    IcebergTransformation,
    InsertOverwriteDirectoryHiveFmtStatement,
    InsertOverwriteDirectoryStatement,
    IntervalLiteral,
    LateralViewClause,
    ListFileStatement,
    ListJarStatement,
    LoadDataStatement,
    PivotClause,
    PropertiesNakedIdentifier,
    PropertyNameIdentifier,
    QualifyClause,
    RefreshStatement,
    RemoveWidgetStatement,
    ReplaceTableStatement,
    ResetStatement,
    RestoreTableStatement,
    SelectExceptClause,
    SelectHint,
    SemiStructuredElement,
    SemiStructuredExpression,
    SetStatement,
    ShowStatement,
    SignedQuotedLiteral,
    SortByClause,
    SqlConfOption,
    StartHint,
    SymlinkFormatManifest,
    TransformClause,
    UncacheTable,
    UseDatabaseStatement,
    VacuumStatement,
    WidgetNameIdentifier,
    WithCubeRollupClause,
}

impl SyntaxKind {
    /// Blank space and line breaks.
    pub open spec fn is_whitespace(self) -> bool {
        self == SyntaxKind::Whitespace || self == SyntaxKind::Newline
    }

    /// Comments of any form.
    pub open spec fn is_comment(self) -> bool {
        self == SyntaxKind::InlineComment || self == SyntaxKind::BlockComment || self
            == SyntaxKind::Comment
    }

    /// Markers that the lexer or the parser puts in and that stand for no
    /// text of the input.
    pub open spec fn is_meta(self) -> bool {
        self == SyntaxKind::Indent || self == SyntaxKind::Dedent || self == SyntaxKind::EndOfFile
    }

    /// What the grammar reads: anything but blank space, comments and
    /// markers.
    pub open spec fn is_code(self) -> bool {
        !self.is_whitespace() && !self.is_comment() && !self.is_meta()
    }

    #[verifier::when_used_as_spec(is_whitespace)]
    pub fn whitespace(self) -> (r: bool)
        ensures
            r == self.is_whitespace(),
    {
        self == SyntaxKind::Whitespace || self == SyntaxKind::Newline
    }

    #[verifier::when_used_as_spec(is_comment)]
    pub fn comment(self) -> (r: bool)
        ensures
            r == self.is_comment(),
    {
        self == SyntaxKind::InlineComment || self == SyntaxKind::BlockComment || self
            == SyntaxKind::Comment
    }

    #[verifier::when_used_as_spec(is_meta)]
    pub fn meta(self) -> (r: bool)
        ensures
            r == self.is_meta(),
    {
        self == SyntaxKind::Indent || self == SyntaxKind::Dedent || self == SyntaxKind::EndOfFile
    }

    #[verifier::when_used_as_spec(is_code)]
    pub fn code(self) -> (r: bool)
        ensures
            r == self.is_code(),
    {
        !self.whitespace() && !self.comment() && !self.meta()
    }
}

} // verus!
