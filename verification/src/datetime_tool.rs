//! The date-and-time tool: one line of calendar facts for the model.
//!
//! The clock and the lunar-calendar lookups happen outside the library;
//! [`DatetimeTool::compose_time_info`] assembles their plain results into
//! the single labelled, comma-separated line the tool answers with.

use vstd::prelude::*;

verus! {

/// The tool itself; it carries no state.
#[derive(Debug)]
pub struct DatetimeTool;

/// The tool takes no arguments.
#[derive(Debug, Default, PartialEq, Eq, Structural)]
pub struct EmptyArgs {}

/// The tool's (never constructed in practice) failure.
#[derive(Debug, PartialEq, Eq, Structural)]
pub struct DatetimeToolError;

/// The optional trailing pieces of the line: a named festival, and a legal
/// holiday notice.
pub open spec fn spec_time_info_tail(
    festival: Option<String>,
    legal_holiday: Option<String>,
) -> Seq<char> {
    (match festival {
        Option::Some(f) => ","@ + "节日: "@ + f@,
        Option::None => Seq::<char>::empty(),
    }) + (match legal_holiday {
        Option::Some(l) => ","@ + l@,
        Option::None => Seq::<char>::empty(),
    })
}

impl DatetimeTool {
    /// The tool's wire definition: its name, what it offers, and the empty
    /// argument schema.
    pub fn definition(&self) -> (r: crate::bigmodel::ToolDefinition)
        ensures
            r.name@ == "DatetimeTool"@,
            r.description@ == "获取当前时间日期的工具,包括获取农历、公历，法定假期、生肖的信息"@,
            r.parameters@
                == "{\"type\":\"object\",\"title\":\"No parameters\",\"properties\":{},\"additionalProperties\":false}"@,
    {
        crate::bigmodel::ToolDefinition {
            name: "DatetimeTool".to_owned(),
            description: "获取当前时间日期的工具,包括获取农历、公历，法定假期、生肖的信息".to_owned(),
            parameters:
                "{\"type\":\"object\",\"title\":\"No parameters\",\"properties\":{},\"additionalProperties\":false}".to_owned(),
        }
    }

    /// The answer line: the labelled clock time, the lunar day, the zodiac,
    /// the weekday, the constellation and the solar-term day, joined by
    /// commas, with the festival and the legal holiday appended when they
    /// exist.
    pub fn compose_time_info(
        &self,
        now: &str,
        lunar_day: &str,
        zodiac: &str,
        week: &str,
        constellation: &str,
        term_day: &str,
        festival: &Option<String>,
        legal_holiday: &Option<String>,
    ) -> (r: String)
        ensures
            r@ == "当前时间: "@ + now@ + ","@ + lunar_day@ + ","@ + "生肖:"@ + zodiac@ + ","@
                + "星期"@ + week@ + ","@ + "星座:"@ + constellation@ + ","@ + term_day@
                + spec_time_info_tail(*festival, *legal_holiday),
    {
        let mut line = "当前时间: ".to_owned();
        line.append(now);
        line.append(",");
        line.append(lunar_day);
        line.append(",");
        line.append("生肖:");
        line.append(zodiac);
        line.append(",");
        line.append("星期");
        line.append(week);
        line.append(",");
        line.append("星座:");
        line.append(constellation);
        line.append(",");
        line.append(term_day);
        match festival {
            Option::Some(f) => {
                line.append(",");
                line.append("节日: ");
                line.append(f.as_str());
            },
            Option::None => {},
        }
        match legal_holiday {
            Option::Some(l) => {
                line.append(",");
                line.append(l.as_str());
            },
            Option::None => {},
        }
        line
    }
}

} // verus!
