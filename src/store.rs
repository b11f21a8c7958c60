use vstd::prelude::*;

verus! {

/// The fields of a recording to change; `None` leaves a field as it is.
#[derive(Clone, Debug)]
pub struct RecordingUpdate {
    pub name: Option<String>,
    pub transcription: Option<String>,
    pub summary: Option<String>,
    pub action_items: Option<String>,
    pub status: Option<String>,
    pub file_path: Option<String>,
}

/// A parameterised statement: its text and the values of its parameters,
/// in order, the recording's id last.
pub struct UpdateStatement {
    pub sql: String,
    pub values: Vec<String>,
}

/// `done`, followed by the pair of `col` and the value of `v` if there is one.
pub open spec fn with_field(
    done: Seq<(Seq<char>, Seq<char>)>,
    col: Seq<char>,
    v: Option<String>,
) -> Seq<(Seq<char>, Seq<char>)> {
    match v {
        Some(x) => done.push((col, x@)),
        None => done,
    }
}

/// The `(column, value)` pairs that an update sets, in column order.
pub open spec fn assignments(u: RecordingUpdate) -> Seq<(Seq<char>, Seq<char>)> {
    let d0 = Seq::<(Seq<char>, Seq<char>)>::empty();
    let d1 = with_field(d0, "name"@, u.name);
    let d2 = with_field(d1, "transcription"@, u.transcription);
    let d3 = with_field(d2, "summary"@, u.summary);
    let d4 = with_field(d3, "action_items"@, u.action_items);
    let d5 = with_field(d4, "status"@, u.status);
    with_field(d5, "file_path"@, u.file_path)
}

/// `col = ?` for each column, separated by commas.
pub open spec fn set_clause(cols: Seq<(Seq<char>, Seq<char>)>) -> Seq<char>
    decreases cols.len(),
{
    if cols.len() == 0 {
        Seq::empty()
    } else if cols.len() == 1 {
        cols[0].0 + " = ?"@
    } else {
        set_clause(cols.drop_last()) + ", "@ + cols.last().0 + " = ?"@
    }
}

fn add_assignment(
    sql: &mut String,
    values: &mut Vec<String>,
    col: &str,
    v: &Option<String>,
    Ghost(done): Ghost<Seq<(Seq<char>, Seq<char>)>>,
    Ghost(head): Ghost<Seq<char>>,
)
    requires
        old(sql)@ == head + set_clause(done),
        old(values)@.len() == done.len(),
        forall|i: int| 0 <= i < done.len() ==> (#[trigger] old(values)@[i])@ == done[i].1,
    ensures
        ({
            let next = with_field(done, col@, *v);
            &&& final(sql)@ == head + set_clause(next)
            &&& final(values)@.len() == next.len()
            &&& forall|i: int| 0 <= i < next.len() ==> (#[trigger] final(values)@[i])@ == next[i].1
        }),
{
    if let Some(x) = v {
        let ghost next = done.push((col@, x@));
        if values.len() > 0 {
            sql.append(", ");
        }
        sql.append(col);
        sql.append(" = ?");
        values.push(x.clone());
        proof {
            assert(next.drop_last() =~= done);
            assert(next.last() == (col@, x@));
            if done.len() == 0 {
                assert(set_clause(done) =~= Seq::<char>::empty());
            }
        }
        assert(sql@ =~= head + set_clause(next));
    }
}

impl RecordingUpdate {
    /// The statement that applies this update to the recording `id`: one
    /// assignment per field to change, in column order.
    pub fn statement(&self, id: i64) -> (r: UpdateStatement)
        ensures
            r.sql@ == "UPDATE recordings SET "@ + set_clause(assignments(*self))
                + " WHERE id = ?"@,
            r.values@.len() == assignments(*self).len(),
            forall|i: int|
                0 <= i < r.values@.len() ==> (#[trigger] r.values@[i])@ == assignments(*self)[i].1,
    {
        let mut sql = String::from_str("UPDATE recordings SET ");
        let ghost head = sql@;
        let mut values: Vec<String> = Vec::new();
        let ghost d0 = Seq::<(Seq<char>, Seq<char>)>::empty();
        assert(sql@ =~= head + set_clause(d0));
        add_assignment(&mut sql, &mut values, "name", &self.name, Ghost(d0), Ghost(head));
        let ghost d1 = with_field(d0, "name"@, self.name);
        add_assignment(
            &mut sql,
            &mut values,
            "transcription",
            &self.transcription,
            Ghost(d1),
            Ghost(head),
        );
        let ghost d2 = with_field(d1, "transcription"@, self.transcription);
        add_assignment(&mut sql, &mut values, "summary", &self.summary, Ghost(d2), Ghost(head));
        let ghost d3 = with_field(d2, "summary"@, self.summary);
        add_assignment(
            &mut sql,
            &mut values,
            "action_items",
            &self.action_items,
            Ghost(d3),
            Ghost(head),
        );
        let ghost d4 = with_field(d3, "action_items"@, self.action_items);
        add_assignment(&mut sql, &mut values, "status", &self.status, Ghost(d4), Ghost(head));
        let ghost d5 = with_field(d4, "status"@, self.status);
        add_assignment(
            &mut sql,
            &mut values,
            "file_path",
            &self.file_path,
            Ghost(d5),
            Ghost(head),
        );
        let ghost d6 = with_field(d5, "file_path"@, self.file_path);
        assert(d6 =~= assignments(*self));
        sql.append(" WHERE id = ?");
        UpdateStatement { sql, values }
    }
}

} // verus!
