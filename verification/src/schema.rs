//! The fixed relational schema: two structures, Plan referencing Tag by
//! identifier, created with "create if not exists" semantics so that
//! repeated creation never fails and never duplicates either structure.
//!
//! The statement text is the bit-exact contract for any external tool
//! reading the store directly: column names and types as written here.

use vstd::prelude::*;

verus! {

/// The text of the statement that creates the Tag structure.
pub open spec fn spec_tag_table_ddl() -> Seq<char> {
    "CREATE TABLE IF NOT EXISTS Tag (ID INT NOT NULL, TagName TEXT NOT NULL, Border TINYINT NOT NULL, Fill TINYINT NOT NULL, Color TINYINT NOT NULL, PRIMARY KEY (ID));"@
}

/// The text of the statement that creates the Plan structure.
pub open spec fn spec_plan_table_ddl() -> Seq<char> {
    "CREATE TABLE IF NOT EXISTS Plan (ID INT NOT NULL, PlanName TEXT NOT NULL, Descr TEXT NOT NULL, StartTime INT NOT NULL, Until INT NOT NULL, Advance INT NOT NULL, Done BOOLEAN NOT NULL, TagID INT NOT NULL, Notify BOOLEAN NOT NULL, Porsmo BOOLEAN NOT NULL, PRIMARY KEY (ID), FOREIGN KEY (TagID) REFERENCES Tag(ID));"@
}

/// The statement that creates the Tag structure, exactly as persisted
/// tools must expect it.
pub fn tag_table_ddl() -> (r: &'static str)
    ensures
        r@ == spec_tag_table_ddl(),
{
    "CREATE TABLE IF NOT EXISTS Tag (ID INT NOT NULL, TagName TEXT NOT NULL, Border TINYINT NOT NULL, Fill TINYINT NOT NULL, Color TINYINT NOT NULL, PRIMARY KEY (ID));"
}

/// The statement that creates the Plan structure, exactly as persisted
/// tools must expect it. The declared foreign key documents that TagID
/// references Tag; since a plan without a tag persists under a sentinel
/// outside the Tag identifiers, drivers open the store without engine
/// enforcement of the key, and the rule that no plan silently
/// references a tag that was never created is kept by the
/// application-level check beside the entities.
pub fn plan_table_ddl() -> (r: &'static str)
    ensures
        r@ == spec_plan_table_ddl(),
{
    "CREATE TABLE IF NOT EXISTS Plan (ID INT NOT NULL, PlanName TEXT NOT NULL, Descr TEXT NOT NULL, StartTime INT NOT NULL, Until INT NOT NULL, Advance INT NOT NULL, Done BOOLEAN NOT NULL, TagID INT NOT NULL, Notify BOOLEAN NOT NULL, Porsmo BOOLEAN NOT NULL, PRIMARY KEY (ID), FOREIGN KEY (TagID) REFERENCES Tag(ID));"
}

/// Both creation statements open with the guarded form of creation: the
/// words that make re-running them harmless rather than an error.
pub proof fn lemma_ddl_is_guarded()
    ensures
        spec_tag_table_ddl().subrange(0, 27) =~= "CREATE TABLE IF NOT EXISTS "@,
        spec_plan_table_ddl().subrange(0, 27) =~= "CREATE TABLE IF NOT EXISTS "@,
{
    reveal_strlit(
        "CREATE TABLE IF NOT EXISTS Tag (ID INT NOT NULL, TagName TEXT NOT NULL, Border TINYINT NOT NULL, Fill TINYINT NOT NULL, Color TINYINT NOT NULL, PRIMARY KEY (ID));",
    );
    reveal_strlit(
        "CREATE TABLE IF NOT EXISTS Plan (ID INT NOT NULL, PlanName TEXT NOT NULL, Descr TEXT NOT NULL, StartTime INT NOT NULL, Until INT NOT NULL, Advance INT NOT NULL, Done BOOLEAN NOT NULL, TagID INT NOT NULL, Notify BOOLEAN NOT NULL, Porsmo BOOLEAN NOT NULL, PRIMARY KEY (ID), FOREIGN KEY (TagID) REFERENCES Tag(ID));",
    );
    reveal_strlit("CREATE TABLE IF NOT EXISTS ");
}

} // verus!
