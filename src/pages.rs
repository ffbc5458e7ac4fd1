use std::collections::HashMap;
use vstd::prelude::*;

verus! {

/// The slug that names a page of the location graph.
#[derive(Debug, Clone, PartialEq, Eq, Hash)]
pub struct PageId(pub String);

impl View for PageId {
    type V = Seq<char>;

    open spec fn view(&self) -> Seq<char> {
        self.0@
    }
}

impl PageId {
    /// Builds the id whose text is `s`.
    pub fn from_str(s: &str) -> (r: PageId)
        ensures
            r@ == s@,
    {
        PageId(s.to_owned())
    }

    /// The text of the id.
    pub fn as_string(&self) -> (r: String)
        ensures
            r@ == self@,
    {
        self.0.clone()
    }

    /// Whether the two ids have the same text.
    pub fn same(&self, other: &PageId) -> (r: bool)
        ensures
            r == (self@ == other@),
    {
        self.0 == other.0
    }
}

/// A named outgoing edge of a page.
#[derive(Clone)]
pub struct PageConnection {
    pub name: String,
    pub target: PageId,
}

/// One location of the graph.
#[derive(Clone)]
pub struct Page {
    pub id: PageId,
    pub template: String,
    pub connections: Vec<PageConnection>,
    pub title: String,
    pub description: String,
    pub metadata: HashMap<String, String>,
}

/// The read-only location graph: its pages, looked up by id.
pub struct PageGraph {
    pub pages: Vec<Page>,
}

/// The first page of `pages` whose id is `id`.
pub open spec fn page_lookup(pages: Seq<Page>, id: Seq<char>) -> Option<Page>
    decreases pages.len(),
{
    if pages.len() == 0 {
        None
    } else if pages[0].id@ == id {
        Some(pages[0])
    } else {
        page_lookup(pages.drop_first(), id)
    }
}

/// The first connection of `conns` whose name is `name`.
pub open spec fn connection_lookup(conns: Seq<PageConnection>, name: Seq<char>) -> Option<
    PageConnection,
>
    decreases conns.len(),
{
    if conns.len() == 0 {
        None
    } else if conns[0].name@ == name {
        Some(conns[0])
    } else {
        connection_lookup(conns.drop_first(), name)
    }
}

impl PageGraph {
    pub open spec fn spec_get(&self, id: Seq<char>) -> Option<Page> {
        page_lookup(self.pages@, id)
    }

    /// The page whose id is `id`, if the graph holds one.
    pub fn get(&self, id: &PageId) -> (r: Option<&Page>)
        ensures
            match r {
                Some(p) => self.spec_get(id@) == Some(*p),
                None => self.spec_get(id@) is None,
            },
    {
        let mut i: usize = 0;
        assert(self.pages@.subrange(0, self.pages@.len() as int) =~= self.pages@);
        while i < self.pages.len()
            invariant
                0 <= i <= self.pages@.len(),
                page_lookup(self.pages@, id@) == page_lookup(
                    self.pages@.subrange(i as int, self.pages@.len() as int),
                    id@,
                ),
            decreases self.pages@.len() - i,
        {
            assert(self.pages@.subrange(i as int, self.pages@.len() as int).drop_first()
                =~= self.pages@.subrange(i + 1, self.pages@.len() as int));
            if self.pages[i].id.same(id) {
                return Some(&self.pages[i]);
            }
            i = i + 1;
        }
        None
    }
}

/// The graph of the three seed pages.
pub fn load_page_graph() -> (r: PageGraph)
    ensures
        r.pages@.len() == 3,
        r.pages@[0].id@ == "small-town"@,
        r.pages@[1].id@ == "route-1"@,
        r.pages@[2].id@ == "green-city"@,
        r.pages@[0].connections@.len() == 1,
        r.pages@[0].connections@[0].name@ == "North"@,
        r.pages@[0].connections@[0].target@ == "route-1"@,
        r.pages@[1].connections@.len() == 2,
        r.pages@[1].connections@[0].name@ == "North"@,
        r.pages@[1].connections@[0].target@ == "green-city"@,
        r.pages@[1].connections@[1].name@ == "South"@,
        r.pages@[1].connections@[1].target@ == "small-town"@,
        r.pages@[2].connections@.len() == 1,
        r.pages@[2].connections@[0].name@ == "South"@,
        r.pages@[2].connections@[0].target@ == "route-1"@,
{
    let small_town = Page {
        id: PageId::from_str("small-town"),
        template: "small-town.html".to_owned(),
        connections: vec![
            PageConnection { name: "North".to_owned(), target: PageId::from_str("route-1") },
        ],
        title: "Small Town".to_owned(),
        description: "A quiet, peaceful town.".to_owned(),
        metadata: HashMap::new(),
    };
    let route_1 = Page {
        id: PageId::from_str("route-1"),
        template: "route-1.html".to_owned(),
        connections: vec![
            PageConnection { name: "North".to_owned(), target: PageId::from_str("green-city") },
            PageConnection { name: "South".to_owned(), target: PageId::from_str("small-town") },
        ],
        title: "Route 1".to_owned(),
        description: "A winding route with tall grass and wild things.".to_owned(),
        metadata: HashMap::new(),
    };
    let green_city = Page {
        id: PageId::from_str("green-city"),
        template: "green-city.html".to_owned(),
        connections: vec![
            PageConnection { name: "South".to_owned(), target: PageId::from_str("route-1") },
        ],
        title: "Green City".to_owned(),
        description: "A bustling city under the old trees.".to_owned(),
        metadata: HashMap::new(),
    };
    PageGraph { pages: vec![small_town, route_1, green_city] }
}

/// The connection named `requested_connection` out of the page
/// `current_page_id`: none when the page is missing or has no such exit.
pub fn valid_move<'a>(
    current_page_id: &'a PageId,
    requested_connection: &'a str,
    pages: &'a PageGraph,
) -> (r: Option<&'a PageConnection>)
    ensures
        match pages.spec_get(current_page_id@) {
            None => r is None,
            Some(page) => match connection_lookup(page.connections@, requested_connection@) {
                None => r is None,
                Some(c) => r == Some(&c),
            },
        },
{
    let wanted = requested_connection.to_owned();
    match pages.get(current_page_id) {
        None => None,
        Some(page) => {
            let mut i: usize = 0;
            assert(page.connections@.subrange(0, page.connections@.len() as int)
                =~= page.connections@);
            while i < page.connections.len()
                invariant
                    0 <= i <= page.connections@.len(),
                    pages.spec_get(current_page_id@) == Some(*page),
                    wanted@ == requested_connection@,
                    connection_lookup(page.connections@, wanted@) == connection_lookup(
                        page.connections@.subrange(i as int, page.connections@.len() as int),
                        wanted@,
                    ),
                decreases page.connections@.len() - i,
            {
                assert(page.connections@.subrange(
                    i as int,
                    page.connections@.len() as int,
                ).drop_first() =~= page.connections@.subrange(
                    i + 1,
                    page.connections@.len() as int,
                ));
                if page.connections[i].name == wanted {
                    assert(page.connections@.subrange(i as int, page.connections@.len() as int)[0]
                        == page.connections@[i as int]);
                    return Some(&page.connections[i]);
                }
                i = i + 1;
            }
            None
        },
    }
}

} // verus!
