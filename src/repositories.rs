use vstd::prelude::*;
use crate::models::{
    BlogPost, PostModel, PublishedDate, Service, ServiceModel, dates_wf, find_post, post_index_from,
    posts_model, services_model,
};
use crate::ports::{BlogRepository, Error, ServiceRepository, post_option_model};

verus! {

/// Markdown source of the first post.
pub const SCALABLE_WEB3_CONTENT: &'static str = r#"Building Scalable Web3 Infrastructure presents unique challenges that require careful consideration of scalability, security, and user experience. In this post, I'll share insights from my experience building decentralized applications at scale.

## The Challenge

Traditional web applications follow a client-server model, but Web3 apps need to interact with blockchain networks, handle wallet connections, and manage state across multiple chains. This creates several key challenges:

```rust
// Example of a Web3 connection manager
pub struct Web3Manager {
    eth_client: EthereumClient,
    wallet_connection: Option<WalletConnection>,
    chain_id: u64,
}

impl Web3Manager {
    pub async fn connect_wallet(&mut self) -> Result<WalletConnection, Web3Error> {
        // Wallet connection logic
    }
}
```

## Best Practices

1. **State Management**
   - Use a robust state management solution
   - Implement proper error handling for blockchain interactions
   - Cache blockchain data when possible

2. **Security Considerations**
   - Always validate transactions client-side
   - Implement proper signature verification
   - Use secure RPC endpoints

3. **Performance Optimization**
   - Batch blockchain calls when possible
   - Implement efficient caching strategies
   - Use WebSocket connections for real-time updates

## Architecture Overview

Here's a high-level overview of a scalable Web3 infrastructure:

```rust
pub struct Web3Infrastructure {
    blockchain_service: BlockchainService,
    cache_layer: CacheLayer,
    transaction_manager: TransactionManager,
}

impl Web3Infrastructure {
    pub async fn process_transaction(&self, tx: Transaction) -> Result<TxHash, Error> {
        // 1. Validate transaction
        self.validate_transaction(&tx)?;
        
        // 2. Check cache
        if let Some(cached) = self.cache_layer.get(&tx.id).await? {
            return Ok(cached);
        }
        
        // 3. Submit to blockchain
        let hash = self.blockchain_service.submit(tx).await?;
        
        // 4. Cache result
        self.cache_layer.set(&tx.id, &hash).await?;
        
        Ok(hash)
    }
}
```

## Conclusion

Building scalable Web3 infrastructure requires a deep understanding of both blockchain technology and traditional web architecture. By following these best practices and implementing proper error handling, caching, and security measures, you can create robust decentralized applications that can handle growth and provide a great user experience.

Remember to always test thoroughly, especially edge cases around wallet connections and transaction handling. The Web3 space is still evolving, so staying up to date with the latest security practices is crucial."#;

/// Markdown source of the second post.
pub const DEFI_FUTURE_CONTENT: &'static str = r#"The Future of DeFi: A Technical Perspective explores the evolving landscape of decentralized finance and its technical implications.

## Current State of DeFi

DeFi protocols have grown exponentially, handling billions in total value locked (TVL). However, several technical challenges remain:

```solidity
// Example of a basic DeFi lending protocol
contract LendingPool {
    mapping(address => uint256) public deposits;
    mapping(address => uint256) public borrows;
    
    function deposit() external payable {
        deposits[msg.sender] += msg.value;
        // Calculate and distribute yield
    }
    
    function borrow(uint256 amount) external {
        require(deposits[msg.sender] * 2 >= amount, "Insufficient collateral");
        borrows[msg.sender] += amount;
        // Transfer funds and update state
    }
}
```

## Technical Challenges

1. **Scalability**
   - High gas fees during peak usage
   - Network congestion
   - Cross-chain interoperability

2. **Security**
   - Smart contract vulnerabilities
   - Oracle manipulation
   - Flash loan attacks

3. **User Experience**
   - Complex interfaces
   - High transaction costs
   - Slow confirmation times

## Future Solutions

### Layer 2 Scaling

```rust
pub struct L2Solution {
    rollup_manager: RollupManager,
    state_validator: StateValidator,
}

impl L2Solution {
    pub async fn process_batch(&self, transactions: Vec<Transaction>) -> Result<BatchProof, Error> {
        // 1. Aggregate transactions
        let batch = self.rollup_manager.aggregate(transactions)?;
        
        // 2. Generate proof
        let proof = self.rollup_manager.generate_proof(batch).await?;
        
        // 3. Validate state transition
        self.state_validator.validate(proof.clone())?;
        
        Ok(proof)
    }
}
```

### Cross-chain Interoperability

The future of DeFi will likely be multi-chain, requiring robust cross-chain communication protocols and standards.

## Conclusion

The future of DeFi is bright, but solving these technical challenges requires innovative solutions and careful consideration of security implications. As we move forward, focusing on scalability, security, and user experience will be crucial for mainstream adoption."#;

/// The posts of the in-memory store, in store order.
pub open spec fn site_posts() -> Seq<PostModel> {
    seq![
        PostModel {
            id: "1"@,
            title: "Building Scalable Web3 Infrastructure"@,
            content: SCALABLE_WEB3_CONTENT@,
            published_at: PublishedDate { year: 2024, month: 11, day: 30 },
        },
        PostModel {
            id: "2"@,
            title: "The Future of DeFi: A Technical Perspective"@,
            content: DEFI_FUTURE_CONTENT@,
            published_at: PublishedDate { year: 2024, month: 11, day: 25 },
        },
    ]
}

/// The services of the in-memory store, in store order.
pub open spec fn site_services() -> Seq<ServiceModel> {
    seq![
        ServiceModel {
            id: "1"@,
            name: "Technical Leadership"@,
            description: "Strategic technical guidance for your startup's growth and success."@,
            price_range: "$200-500/hour"@,
        },
        ServiceModel {
            id: "2"@,
            name: "Web3 Development"@,
            description: "End-to-end development of decentralized applications."@,
            price_range: "Custom pricing"@,
        },
    ]
}

/// A read-only blog store whose posts are fixed when the program is built.
pub struct MockBlogRepository;

impl MockBlogRepository {
    pub fn new() -> Self {
        MockBlogRepository
    }
}

impl BlogRepository for MockBlogRepository {
    open spec fn stored_posts(&self) -> Seq<PostModel> {
        site_posts()
    }

    open spec fn infallible(&self) -> bool {
        true
    }

    fn get_posts(&self) -> (r: Result<Vec<BlogPost>, Error>) {
        let mut v: Vec<BlogPost> = Vec::new();
        v.push(
            BlogPost {
                id: String::from_str("1"),
                title: String::from_str("Building Scalable Web3 Infrastructure"),
                content: String::from_str(SCALABLE_WEB3_CONTENT),
                published_at: PublishedDate { year: 2024, month: 11, day: 30 },
            },
        );
        v.push(
            BlogPost {
                id: String::from_str("2"),
                title: String::from_str("The Future of DeFi: A Technical Perspective"),
                content: String::from_str(DEFI_FUTURE_CONTENT),
                published_at: PublishedDate { year: 2024, month: 11, day: 25 },
            },
        );
        assert(posts_model(v@) =~= site_posts());
        Ok(v)
    }

    fn get_post(&self, id: &str) -> (r: Result<Option<BlogPost>, Error>) {
        let mut posts = match self.get_posts() {
            Ok(v) => v,
            Err(e) => return Err(e),
        };
        let key = String::from_str(id);
        let mut i: usize = 0;
        while i < posts.len()
            invariant
                posts_model(posts@) == site_posts(),
                dates_wf(site_posts()),
                key@ == id@,
                i <= posts.len(),
                post_index_from(site_posts(), id@, 0) == post_index_from(site_posts(), id@, i as int),
            decreases posts.len() - i,
        {
            assert(posts_model(posts@)[i as int] == posts@[i as int]@);
            if posts[i].id == key {
                let p = posts.remove(i);
                return Ok(Some(p));
            }
            i = i + 1;
        }
        Ok(None)
    }
}

/// A read-only service store whose services are fixed when the program is built.
pub struct MockServiceRepository;

impl MockServiceRepository {
    pub fn new() -> Self {
        MockServiceRepository
    }
}

impl ServiceRepository for MockServiceRepository {
    open spec fn stored_services(&self) -> Seq<ServiceModel> {
        site_services()
    }

    open spec fn infallible(&self) -> bool {
        true
    }

    fn get_services(&self) -> (r: Result<Vec<Service>, Error>) {
        let mut v: Vec<Service> = Vec::new();
        v.push(
            Service {
                id: String::from_str("1"),
                name: String::from_str("Technical Leadership"),
                description: String::from_str(
                    "Strategic technical guidance for your startup's growth and success.",
                ),
                price_range: String::from_str("$200-500/hour"),
            },
        );
        v.push(
            Service {
                id: String::from_str("2"),
                name: String::from_str("Web3 Development"),
                description: String::from_str("End-to-end development of decentralized applications."),
                price_range: String::from_str("Custom pricing"),
            },
        );
        assert(services_model(v@) =~= site_services());
        Ok(v)
    }
}

/// Every in-memory store holds the same posts and services: reads never see
/// a collection that differs from one store, or one call, to the next.
pub proof fn lemma_stores_fixed(
    a: MockBlogRepository,
    b: MockBlogRepository,
    c: MockServiceRepository,
    d: MockServiceRepository,
)
    ensures
        a.stored_posts() == b.stored_posts(),
        c.stored_services() == d.stored_services(),
        a.stored_posts() == site_posts(),
        c.stored_services() == site_services(),
{
}

} // verus!
