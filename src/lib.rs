//! Line-oriented parsing of bibliographic citation records into typed
//! entities, and their projection onto a small property graph.

pub mod text;
pub mod error;
pub mod tag;
pub mod leaf;
pub mod article;
pub mod records;
pub mod lists;
pub mod root;
pub mod filter;

pub use article::{
    Abstract, Article, ArticleId, Chemical, Date, Edge, Journal, JournalIssue, Keyword, Mesh,
    MeshTopic, Node, SupplMesh,
};
pub use error::ParseError;
pub use filter::{default_skip_patterns, is_skipped};
pub use leaf::{LeafKind, ObjectBuilder};
pub use lists::{
    ArticleIdsBuilder, ChemicalListBuilder, GeneSymbolListBuilder, KeywordListBuilder,
    MeshListBuilder, OtherAbstractBuilder, ReferencesBuilder, SupplMeshListBuilder,
};
pub use records::{
    AbstractBuilder, ChemicalBuilder, DateBuilder, JournalBuilder, JournalIssueBuilder,
    MeshBuilder,
};
pub use root::{ArticleBuilder, IgnoreTag, IgnoreTags, RecordReader};
pub use tag::XMLHelper;
